use wapm::find_command_result::{
    get_command_from_anywhere, Command, Error, FindCommandResult, FindError,
};
use wapm::lockfile::{Lockfile, LockfileCommand, LockfileError, LockfileModule, LockfileResult};
use wapm::manifest::{Manifest, ManifestModule, ManifestResult};

fn dep_lockfile() -> Lockfile {
    Lockfile {
        modules: vec![LockfileModule {
            name: "bar".to_string(),
            package_name: "p".to_string(),
            package_version: "1.0.0".to_string(),
            source: "./bar.wasm".to_string(),
            package_root: "wapm_packages/p@1.0.0".to_string(),
            prehashed_module_key: "deadbeef".to_string(),
        }],
        commands: vec![LockfileCommand {
            name: "foo".to_string(),
            package_name: "p".to_string(),
            package_version: "1.0.0".to_string(),
            module: "bar".to_string(),
            main_args: None,
        }],
    }
}

fn myapp_manifest() -> Manifest {
    Manifest {
        package_name: "myapp".to_string(),
        base_directory_path: "/proj".to_string(),
        modules: vec![ManifestModule {
            name: "run".to_string(),
            source: "./run.wasm".to_string(),
        }],
    }
}

fn myapp_lockfile(module: &str) -> Lockfile {
    Lockfile {
        modules: vec![LockfileModule {
            name: "run".to_string(),
            package_name: "myapp".to_string(),
            package_version: "0.1.0".to_string(),
            source: "./run.wasm".to_string(),
            package_root: ".".to_string(),
            prehashed_module_key: "cafe".to_string(),
        }],
        commands: vec![LockfileCommand {
            name: "run".to_string(),
            package_name: "myapp".to_string(),
            package_version: "0.1.0".to_string(),
            module: module.to_string(),
            main_args: None,
        }],
    }
}

#[test]
fn empty_directory_yields_not_found() {
    let r = FindCommandResult::find_command_in_directory(
        "/anywhere",
        "whatever",
        ManifestResult::NoManifest,
        LockfileResult::NoLockfile,
    );
    assert_eq!(r, FindCommandResult::CommandNotFound("whatever".to_string()));
}

#[test]
fn lockfile_only_command_found_with_cache_key() {
    let r = FindCommandResult::find_command_in_directory(
        "/some/dir",
        "foo",
        ManifestResult::NoManifest,
        LockfileResult::Lockfile(dep_lockfile()),
    );
    match r {
        FindCommandResult::CommandFound {
            source,
            manifest_dir,
            args,
            module_name,
            prehashed_cache_key,
        } => {
            assert_eq!(source, "/some/dir/bar.wasm");
            assert_eq!(manifest_dir, "/some/dir/wapm_packages/p@1.0.0");
            assert_eq!(args, None);
            assert_eq!(module_name, "bar");
            assert_eq!(prehashed_cache_key, Some("deadbeef".to_string()));
        }
        other => panic!("expected CommandFound, got {:?}", other),
    }
}

#[test]
fn lockfile_only_broken_module_reference_is_not_found() {
    let mut lockfile = dep_lockfile();
    lockfile.commands[0].module = "no-such-module".to_string();
    let r = FindCommandResult::find_command_in_directory(
        "/some/dir",
        "foo",
        ManifestResult::NoManifest,
        LockfileResult::Lockfile(lockfile),
    );
    assert_eq!(r, FindCommandResult::CommandNotFound("foo".to_string()));
}

#[test]
fn local_command_resolves_through_manifest_without_cache_key() {
    let r = FindCommandResult::find_command_in_directory(
        "/proj",
        "run",
        ManifestResult::Manifest(myapp_manifest()),
        LockfileResult::Lockfile(myapp_lockfile("run")),
    );
    match r {
        FindCommandResult::CommandFound {
            source,
            manifest_dir,
            args,
            module_name,
            prehashed_cache_key,
        } => {
            assert_eq!(source, "/proj/run.wasm");
            assert_eq!(manifest_dir, "/proj");
            assert_eq!(args, None);
            assert_eq!(module_name, "run");
            assert_eq!(prehashed_cache_key, None);
        }
        other => panic!("expected CommandFound, got {:?}", other),
    }
}

#[test]
fn local_command_with_missing_module_is_hard_error() {
    let r = FindCommandResult::find_command_in_directory(
        "/proj",
        "run",
        ManifestResult::Manifest(myapp_manifest()),
        LockfileResult::Lockfile(myapp_lockfile("missing")),
    );
    match r {
        FindCommandResult::Error(FindError::CommandFoundButCorrespondingModuleIsMissing {
            command,
            module,
        }) => {
            assert_eq!(command, "run");
            assert_eq!(module, "missing");
        }
        other => panic!("expected the local-inconsistency error, got {:?}", other),
    }
}

#[test]
fn local_inconsistency_message_names_command_and_module() {
    let e = FindError::CommandFoundButCorrespondingModuleIsMissing {
        command: "run".to_string(),
        module: "missing".to_string(),
    };
    let msg = e.message();
    assert!(msg.contains("\"run\""));
    assert!(msg.contains("\"missing\""));
}

#[test]
fn dependency_command_always_carries_cache_key() {
    // the command's package differs from the manifest's own package
    let r = FindCommandResult::find_command_in_directory(
        "/proj",
        "foo",
        ManifestResult::Manifest(myapp_manifest()),
        LockfileResult::Lockfile(dep_lockfile()),
    );
    match r {
        FindCommandResult::CommandFound { prehashed_cache_key, source, .. } => {
            assert_eq!(prehashed_cache_key, Some("deadbeef".to_string()));
            assert_eq!(source, "/proj/bar.wasm");
        }
        other => panic!("expected CommandFound, got {:?}", other),
    }
}

#[test]
fn resolution_is_idempotent() {
    let first = FindCommandResult::find_command_in_directory(
        "/proj",
        "run",
        ManifestResult::Manifest(myapp_manifest()),
        LockfileResult::Lockfile(myapp_lockfile("run")),
    );
    let second = FindCommandResult::find_command_in_directory(
        "/proj",
        "run",
        ManifestResult::Manifest(myapp_manifest()),
        LockfileResult::Lockfile(myapp_lockfile("run")),
    );
    assert_eq!(first, second);
}

#[test]
fn manifest_error_wins_over_everything() {
    let r = FindCommandResult::find_command_in_directory(
        "/proj",
        "run",
        ManifestResult::ManifestError("bad toml".to_string()),
        LockfileResult::LockfileError("also bad".to_string()),
    );
    assert_eq!(
        r,
        FindCommandResult::Error(FindError::ManifestError("bad toml".to_string()))
    );
}

#[test]
fn lockfile_error_is_reported_when_manifest_is_fine() {
    let r = FindCommandResult::find_command_in_directory(
        "/proj",
        "run",
        ManifestResult::NoManifest,
        LockfileResult::LockfileError("bad lock".to_string()),
    );
    assert_eq!(
        r,
        FindCommandResult::Error(FindError::LockfileError("bad lock".to_string()))
    );
}

#[test]
fn lockfile_error_conversion_keeps_absence_recoverable() {
    let r: FindCommandResult = LockfileError::CommandNotFound("x".to_string()).into();
    assert_eq!(r, FindCommandResult::CommandNotFound("x".to_string()));
    let r: FindCommandResult = LockfileError::ModuleNotFound {
        package_name: "p".to_string(),
        package_version: "1.0.0".to_string(),
        module_name: "m".to_string(),
    }
    .into();
    assert!(matches!(r, FindCommandResult::Error(FindError::ModuleNotFound { .. })));
}

#[test]
fn local_scope_wins_over_global() {
    // the same command is installed in both scopes
    let r = get_command_from_anywhere(
        "foo",
        "/local",
        ManifestResult::NoManifest,
        LockfileResult::Lockfile(dep_lockfile()),
        Ok("/globals".to_string()),
        ManifestResult::NoManifest,
        LockfileResult::Lockfile(dep_lockfile()),
    );
    let c: Command = r.expect("local resolution must succeed");
    assert!(!c.is_global);
    assert_eq!(c.source, "/local/bar.wasm");
}

#[test]
fn global_scope_is_used_when_local_has_nothing() {
    let r = get_command_from_anywhere(
        "foo",
        "/local",
        ManifestResult::NoManifest,
        LockfileResult::NoLockfile,
        Ok("/globals".to_string()),
        ManifestResult::NoManifest,
        LockfileResult::Lockfile(dep_lockfile()),
    );
    let c: Command = r.expect("global resolution must succeed");
    assert!(c.is_global);
    assert_eq!(c.source, "/globals/bar.wasm");
    assert_eq!(c.prehashed_cache_key, Some("deadbeef".to_string()));
}

#[test]
fn absent_everywhere_is_command_not_found() {
    let r = get_command_from_anywhere(
        "ghost",
        "/local",
        ManifestResult::NoManifest,
        LockfileResult::NoLockfile,
        Ok("/globals".to_string()),
        ManifestResult::NoManifest,
        LockfileResult::NoLockfile,
    );
    assert_eq!(r, Err(Error::CommandNotFound("ghost".to_string())));
    let msg = Error::CommandNotFound("ghost".to_string()).message();
    assert_eq!(
        msg,
        "Command \"ghost\" was not found in the local directory or the global install directory."
    );
}

#[test]
fn local_error_is_never_masked_by_global_scope() {
    let r = get_command_from_anywhere(
        "run",
        "/proj",
        ManifestResult::Manifest(myapp_manifest()),
        LockfileResult::Lockfile(myapp_lockfile("missing")),
        Ok("/globals".to_string()),
        ManifestResult::NoManifest,
        LockfileResult::Lockfile(dep_lockfile()),
    );
    match r {
        Err(Error::ErrorReadingLocalDirectory(cmd, cause)) => {
            assert_eq!(cmd, "run");
            assert!(cause.contains("\"run\""));
            assert!(cause.contains("\"missing\""));
        }
        other => panic!("expected ErrorReadingLocalDirectory, got {:?}", other),
    }
}

#[test]
fn failing_globals_locator_is_its_own_error() {
    let r = get_command_from_anywhere(
        "foo",
        "/local",
        ManifestResult::NoManifest,
        LockfileResult::NoLockfile,
        Err("no home directory".to_string()),
        ManifestResult::NoManifest,
        LockfileResult::NoLockfile,
    );
    assert_eq!(
        r,
        Err(Error::CouldNotOpenGlobalsDirectory(
            "foo".to_string(),
            "no home directory".to_string()
        ))
    );
}

#[test]
fn broken_global_scope_after_clean_local_miss_is_compound_error() {
    let r = get_command_from_anywhere(
        "foo",
        "/local",
        ManifestResult::NoManifest,
        LockfileResult::NoLockfile,
        Ok("/globals".to_string()),
        ManifestResult::NoManifest,
        LockfileResult::LockfileError("global lock is garbage".to_string()),
    );
    match r {
        Err(Error::CommandNotFoundInLocalDirectoryAndErrorReadingGlobalDirectory(cmd, cause)) => {
            assert_eq!(cmd, "foo");
            assert_eq!(cause, "global lock is garbage");
        }
        other => panic!("expected the compound error, got {:?}", other),
    }
}

#[test]
fn remaining_error_messages_name_the_command_and_the_cause() {
    let e = Error::ErrorReadingLocalDirectory("c".to_string(), "why".to_string());
    assert_eq!(
        e.message(),
        "Could not get command \"c\" because there was a problem with the local package. why"
    );
    let e = Error::CommandNotFoundInLocalDirectoryAndErrorReadingGlobalDirectory(
        "c".to_string(),
        "why".to_string(),
    );
    assert_eq!(
        e.message(),
        "Command \"c\" was not found in the local directory. There was an error parsing the global lockfile. why"
    );
    let e = Error::CouldNotOpenGlobalsDirectory("c".to_string(), "why".to_string());
    assert_eq!(
        e.message(),
        "Failed to get command \"c\" because there was an error opening the global installation directory. why"
    );
    let e = Error::CommandFoundButCorrespondingModuleIsMissing("c".to_string(), "m".to_string());
    assert_eq!(
        e.message(),
        "Command \"c\" exists in lockfile, but corresponding module \"m\" not found in lockfile."
    );
    let e = FindError::ModuleNotFound {
        package_name: "p".to_string(),
        package_version: "1.0.0".to_string(),
        module_name: "m".to_string(),
    };
    assert_eq!(
        e.message(),
        "Module \"m\" for package \"p@1.0.0\" was not found in the lockfile."
    );
}

#[test]
fn lockfile_lookups_by_identity() {
    let lockfile = dep_lockfile();
    let c = lockfile.get_command("foo").unwrap();
    assert_eq!(c.module, "bar");
    let e = lockfile.get_command("nope").unwrap_err();
    assert_eq!(e, LockfileError::CommandNotFound("nope".to_string()));
    let m = lockfile.get_module("p", "1.0.0", "bar").unwrap();
    assert_eq!(m.source, "./bar.wasm");
    let e = lockfile.get_module("p", "2.0.0", "bar").unwrap_err();
    assert!(matches!(e, LockfileError::ModuleNotFound { .. }));
    let key = lockfile.get_prehashed_cache_key_from_command(&lockfile.commands[0]);
    assert_eq!(key, Some("deadbeef".to_string()));
}

#[test]
fn manifest_module_lookup_by_name() {
    let manifest = myapp_manifest();
    let m = manifest.get_module("run").unwrap();
    assert_eq!(m.source, "./run.wasm");
    assert!(manifest.get_module("other").is_none());
}

#[test]
fn command_args_are_carried_through() {
    let mut lockfile = dep_lockfile();
    lockfile.commands[0].main_args = Some("--verbose".to_string());
    let r = FindCommandResult::find_command_in_directory(
        "/d",
        "foo",
        ManifestResult::NoManifest,
        LockfileResult::Lockfile(lockfile),
    );
    match r {
        FindCommandResult::CommandFound { args, .. } => {
            assert_eq!(args, Some("--verbose".to_string()));
        }
        other => panic!("expected CommandFound, got {:?}", other),
    }
}

#[test]
fn first_matching_command_entry_wins() {
    let mut lockfile = dep_lockfile();
    lockfile.commands.push(LockfileCommand {
        name: "foo".to_string(),
        package_name: "q".to_string(),
        package_version: "2.0.0".to_string(),
        module: "bar".to_string(),
        main_args: None,
    });
    let r = FindCommandResult::find_command_in_directory(
        "/d",
        "foo",
        ManifestResult::NoManifest,
        LockfileResult::Lockfile(lockfile),
    );
    match r {
        FindCommandResult::CommandFound { prehashed_cache_key, .. } => {
            assert_eq!(prehashed_cache_key, Some("deadbeef".to_string()));
        }
        other => panic!("expected CommandFound, got {:?}", other),
    }
}
