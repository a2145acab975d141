//! The command resolution engine and the scope fallback controller.
//!
//! The engine reconciles, for one directory, what the manifest declares
//! with what the lockfile installed, and produces one of three outcomes:
//! the command was found, it is absent here, or the directory's artifacts
//! are inconsistent. The controller runs the engine against the local
//! directory first and the global installation directory second, and only
//! an absence — never an error — moves the search to the next scope.

use vstd::prelude::*;
use vstd::string::*;
use crate::lockfile::{
    find_command, find_lock_module, Lockfile, LockfileError, LockfileResult,
    LockfileResultView, LockfileView,
};
use crate::manifest::{
    find_module, Manifest, ManifestResult, ManifestResultView, ManifestView,
};
use crate::paths::{canonicalize_relative_path, join_path};
use crate::strutil::str_eq;

verus! {

/// What a registry lookup returns for a command name: the command, the
/// version that provides it and the package's display name. The lookup
/// itself is a network request made outside the library; callers use it
/// only after the local and global scopes both came up empty.
#[derive(Debug, PartialEq)]
pub struct PackageInfoFromCommand {
    pub command: String,
    pub version: String,
    pub namespaced_package_name: String,
}

/// A hard inconsistency or read failure inside one search scope. Unlike a
/// plain absence it terminates that scope's search.
#[derive(Debug, PartialEq)]
pub enum FindError {
    /// The manifest loader's own failure text.
    ManifestError(String),
    /// The lockfile loader's own failure text.
    LockfileError(String),
    /// A command entry references a module the lockfile does not hold.
    ModuleNotFound { package_name: String, package_version: String, module_name: String },
    /// The lockfile and the manifest disagree about the project's own
    /// modules.
    CommandFoundButCorrespondingModuleIsMissing { command: String, module: String },
}

pub ghost enum FindErrorView {
    ManifestError(Seq<char>),
    LockfileError(Seq<char>),
    ModuleNotFound { package_name: Seq<char>, package_version: Seq<char>, module_name: Seq<char> },
    CommandFoundButCorrespondingModuleIsMissing { command: Seq<char>, module: Seq<char> },
}

impl View for FindError {
    type V = FindErrorView;

    open spec fn view(&self) -> FindErrorView {
        match self {
            FindError::ManifestError(e) => FindErrorView::ManifestError(e@),
            FindError::LockfileError(e) => FindErrorView::LockfileError(e@),
            FindError::ModuleNotFound { package_name, package_version, module_name } => {
                FindErrorView::ModuleNotFound {
                    package_name: package_name@,
                    package_version: package_version@,
                    module_name: module_name@,
                }
            },
            FindError::CommandFoundButCorrespondingModuleIsMissing { command, module } => {
                FindErrorView::CommandFoundButCorrespondingModuleIsMissing {
                    command: command@,
                    module: module@,
                }
            },
        }
    }
}

/// The message a scope error surfaces to the user.
pub open spec fn find_error_message(e: FindErrorView) -> Seq<char> {
    match e {
        FindErrorView::ManifestError(s) => s,
        FindErrorView::LockfileError(s) => s,
        FindErrorView::ModuleNotFound { package_name, package_version, module_name } => "Module \""@
            + module_name + "\" for package \""@ + package_name + "@"@ + package_version
            + "\" was not found in the lockfile."@,
        FindErrorView::CommandFoundButCorrespondingModuleIsMissing { command, module } => "Command \""@
            + command + "\" exists in lockfile, but corresponding module \""@ + module
            + "\" not found in lockfile."@,
    }
}

impl FindError {
    /// Render the error for the user.
    pub fn message(&self) -> (r: String)
        ensures
            r@ == find_error_message(self@),
    {
        match self {
            FindError::ManifestError(e) => e.clone(),
            FindError::LockfileError(e) => e.clone(),
            FindError::ModuleNotFound { package_name, package_version, module_name } => {
                let mut s: String = "Module \"".to_owned();
                s.append(module_name.as_str());
                s.append("\" for package \"");
                s.append(package_name.as_str());
                s.append("@");
                s.append(package_version.as_str());
                s.append("\" was not found in the lockfile.");
                proof {
                    assert(s@ =~= find_error_message(self@));
                }
                s
            },
            FindError::CommandFoundButCorrespondingModuleIsMissing { command, module } => {
                let mut s: String = "Command \"".to_owned();
                s.append(command.as_str());
                s.append("\" exists in lockfile, but corresponding module \"");
                s.append(module.as_str());
                s.append("\" not found in lockfile.");
                proof {
                    assert(s@ =~= find_error_message(self@));
                }
                s
            },
        }
    }
}

/// What resolving one command in one directory produced.
#[derive(Debug, PartialEq)]
pub enum FindCommandResult {
    /// The command is not installed here; the next scope may still hold it.
    CommandNotFound(String),
    /// The command was found; everything the invoker needs to run it.
    CommandFound {
        source: String,
        manifest_dir: String,
        args: Option<String>,
        module_name: String,
        prehashed_cache_key: Option<String>,
    },
    /// This scope is broken; the search stops here.
    Error(FindError),
}

/// The fields of a found command, before the controller stamps the scope
/// onto them.
pub ghost struct FoundCommandView {
    pub source: Seq<char>,
    pub manifest_dir: Seq<char>,
    pub args: Option<Seq<char>>,
    pub module_name: Seq<char>,
    pub prehashed_cache_key: Option<Seq<char>>,
}

pub ghost enum FindCommandResultView {
    CommandNotFound(Seq<char>),
    CommandFound(FoundCommandView),
    Error(FindErrorView),
}

impl View for FindCommandResult {
    type V = FindCommandResultView;

    open spec fn view(&self) -> FindCommandResultView {
        match self {
            FindCommandResult::CommandNotFound(c) => FindCommandResultView::CommandNotFound(c@),
            FindCommandResult::CommandFound {
                source,
                manifest_dir,
                args,
                module_name,
                prehashed_cache_key,
            } => FindCommandResultView::CommandFound(
                FoundCommandView {
                    source: source@,
                    manifest_dir: manifest_dir@,
                    args: match args {
                        Some(a) => Some(a@),
                        None => None,
                    },
                    module_name: module_name@,
                    prehashed_cache_key: match prehashed_cache_key {
                        Some(k) => Some(k@),
                        None => None,
                    },
                },
            ),
            FindCommandResult::Error(e) => FindCommandResultView::Error(e@),
        }
    }
}

/// A lockfile lookup failure becomes a scope outcome: a missing command is
/// the recoverable absence, anything else is a hard error.
pub open spec fn spec_from_lockfile_error(e: crate::lockfile::LockfileErrorView) -> FindCommandResultView {
    match e {
        crate::lockfile::LockfileErrorView::CommandNotFound(c) => FindCommandResultView::CommandNotFound(
            c,
        ),
        crate::lockfile::LockfileErrorView::ModuleNotFound {
            package_name,
            package_version,
            module_name,
        } => FindCommandResultView::Error(
            FindErrorView::ModuleNotFound { package_name, package_version, module_name },
        ),
    }
}

impl From<LockfileError> for FindCommandResult {
    fn from(error: LockfileError) -> (r: Self) {
        match error {
            LockfileError::CommandNotFound(c) => FindCommandResult::CommandNotFound(c),
            LockfileError::ModuleNotFound { package_name, package_version, module_name } => {
                FindCommandResult::Error(
                    FindError::ModuleNotFound { package_name, package_version, module_name },
                )
            },
        }
    }
}

impl vstd::std_specs::convert::FromSpecImpl<LockfileError> for FindCommandResult {
    open spec fn obeys_from_spec() -> bool {
        true
    }

    open spec fn from_spec(error: LockfileError) -> FindCommandResult {
        match error {
            LockfileError::CommandNotFound(c) => FindCommandResult::CommandNotFound(c),
            LockfileError::ModuleNotFound { package_name, package_version, module_name } => {
                FindCommandResult::Error(
                    FindError::ModuleNotFound { package_name, package_version, module_name },
                )
            },
        }
    }
}

fn clone_opt_string(o: &Option<String>) -> (r: Option<String>)
    ensures
        match o {
            Some(s) => r matches Some(t) && t@ == s@,
            None => r is None,
        },
{
    match o {
        Some(s) => Some(s.clone()),
        None => None,
    }
}

/// Resolution against a lockfile alone: there is no local package to
/// distinguish from, so even a broken module reference only means the
/// command is unusable here and the next scope should be tried.
pub open spec fn spec_find_in_lockfile(
    command_name: Seq<char>,
    lockfile: LockfileView,
    directory: Seq<char>,
) -> FindCommandResultView {
    match find_command(lockfile.commands, command_name) {
        None => FindCommandResultView::CommandNotFound(command_name),
        Some(cmd) => match find_lock_module(
            lockfile.modules,
            cmd.package_name,
            cmd.package_version,
            cmd.module,
        ) {
            None => FindCommandResultView::CommandNotFound(command_name),
            Some(m) => FindCommandResultView::CommandFound(
                FoundCommandView {
                    source: join_path(directory, m.source),
                    manifest_dir: join_path(directory, m.package_root),
                    args: cmd.main_args,
                    module_name: m.name,
                    prehashed_cache_key: Some(m.prehashed_module_key),
                },
            ),
        },
    }
}

/// Resolution when both artifacts are present. A command owned by the
/// manifest's own package is resolved through the manifest's module list
/// and never carries a cache key; a disagreement there is a hard error. A
/// command owned by any other package is resolved through the lockfile's
/// module table and carries the module's cache key.
pub open spec fn spec_find_in_manifest_and_lockfile(
    command_name: Seq<char>,
    manifest: ManifestView,
    lockfile: LockfileView,
    directory: Seq<char>,
) -> FindCommandResultView {
    match find_command(lockfile.commands, command_name) {
        None => FindCommandResultView::CommandNotFound(command_name),
        Some(cmd) => if cmd.package_name == manifest.package_name {
            match find_module(manifest.modules, cmd.module) {
                Some(m) => FindCommandResultView::CommandFound(
                    FoundCommandView {
                        source: join_path(manifest.base_directory_path, m.source),
                        manifest_dir: manifest.base_directory_path,
                        args: cmd.main_args,
                        module_name: m.name,
                        prehashed_cache_key: None,
                    },
                ),
                None => FindCommandResultView::Error(
                    FindErrorView::CommandFoundButCorrespondingModuleIsMissing {
                        command: command_name,
                        module: cmd.module,
                    },
                ),
            }
        } else {
            match find_lock_module(
                lockfile.modules,
                cmd.package_name,
                cmd.package_version,
                cmd.module,
            ) {
                Some(m) => FindCommandResultView::CommandFound(
                    FoundCommandView {
                        source: join_path(directory, m.source),
                        manifest_dir: join_path(directory, m.package_root),
                        args: cmd.main_args,
                        module_name: m.name,
                        prehashed_cache_key: Some(m.prehashed_module_key),
                    },
                ),
                None => FindCommandResultView::Error(
                    FindErrorView::ModuleNotFound {
                        package_name: cmd.package_name,
                        package_version: cmd.package_version,
                        module_name: cmd.module,
                    },
                ),
            }
        },
    }
}

/// The 2x2 decision over (manifest present?, lockfile present?). A loader
/// failure wins over everything, a manifest failure over a lockfile one;
/// both absent is a plain absence. A manifest without a lockfile is an
/// upstream fault and excluded by precondition, so the value given here is
/// never produced.
pub open spec fn spec_find_in_directory(
    command_name: Seq<char>,
    directory: Seq<char>,
    manifest_result: ManifestResultView,
    lockfile_result: LockfileResultView,
) -> FindCommandResultView {
    match (manifest_result, lockfile_result) {
        (ManifestResultView::ManifestError(e), _) => FindCommandResultView::Error(
            FindErrorView::ManifestError(e),
        ),
        (_, LockfileResultView::LockfileError(e)) => FindCommandResultView::Error(
            FindErrorView::LockfileError(e),
        ),
        (ManifestResultView::NoManifest, LockfileResultView::NoLockfile) => FindCommandResultView::CommandNotFound(
            command_name,
        ),
        (ManifestResultView::NoManifest, LockfileResultView::Lockfile(l)) => spec_find_in_lockfile(
            command_name,
            l,
            directory,
        ),
        (ManifestResultView::Manifest(m), LockfileResultView::Lockfile(l)) => spec_find_in_manifest_and_lockfile(
            command_name,
            m,
            l,
            directory,
        ),
        (ManifestResultView::Manifest(_), LockfileResultView::NoLockfile) => FindCommandResultView::CommandNotFound(
            command_name,
        ),
    }
}

impl FindCommandResult {
    /// Resolve a command against a lockfile with no manifest beside it.
    pub fn find_command_in_lockfile(command_name: &str, lockfile: Lockfile, directory: &str) -> (r:
        Self)
        ensures
            r@ == spec_find_in_lockfile(command_name@, lockfile@, directory@),
    {
        match lockfile.get_command(command_name) {
            Ok(lockfile_command) => {
                match lockfile.get_module(
                    lockfile_command.package_name.as_str(),
                    lockfile_command.package_version.as_str(),
                    lockfile_command.module.as_str(),
                ) {
                    Ok(lockfile_module) => {
                        let path = lockfile_module.get_canonical_source_path_from_lockfile_dir(
                            directory,
                        );
                        let manifest_dir =
                            lockfile_module.get_canonical_manifest_path_from_lockfile_dir(
                            directory,
                        );
                        let prehashed_cache_key = lockfile.get_prehashed_cache_key_from_command(
                            lockfile_command,
                        );
                        FindCommandResult::CommandFound {
                            source: path,
                            manifest_dir,
                            args: clone_opt_string(&lockfile_command.main_args),
                            module_name: lockfile_module.name.clone(),
                            prehashed_cache_key,
                        }
                    },
                    Err(_e) => FindCommandResult::CommandNotFound(command_name.to_owned()),
                }
            },
            Err(_e) => FindCommandResult::CommandNotFound(command_name.to_owned()),
        }
    }

    /// Resolve a command where both a manifest and a lockfile are present.
    pub fn find_command_in_manifest_and_lockfile(
        command_name: &str,
        manifest: Manifest,
        lockfile: Lockfile,
        directory: &str,
    ) -> (r: Self)
        ensures
            r@ == spec_find_in_manifest_and_lockfile(command_name@, manifest@, lockfile@, directory@),
    {
        match lockfile.get_command(command_name) {
            Err(e) => FindCommandResult::from(e),
            Ok(lockfile_command) => {
                if str_eq(lockfile_command.package_name.as_str(), manifest.package_name.as_str()) {
                    // the command belongs to the project's own package
                    match manifest.get_module(lockfile_command.module.as_str()) {
                        Some(module) => FindCommandResult::CommandFound {
                            source: canonicalize_relative_path(
                                manifest.base_directory_path.as_str(),
                                module.source.as_str(),
                            ),
                            manifest_dir: manifest.base_directory_path.clone(),
                            args: clone_opt_string(&lockfile_command.main_args),
                            module_name: module.name.clone(),
                            // a local module may have been edited since the
                            // last lock: never trust a cache key for it
                            prehashed_cache_key: None,
                        },
                        None => FindCommandResult::Error(
                            FindError::CommandFoundButCorrespondingModuleIsMissing {
                                command: command_name.to_owned(),
                                module: lockfile_command.module.clone(),
                            },
                        ),
                    }
                } else {
                    // the command is run as a locked dependency
                    match lockfile.get_module(
                        lockfile_command.package_name.as_str(),
                        lockfile_command.package_version.as_str(),
                        lockfile_command.module.as_str(),
                    ) {
                        Ok(lockfile_module) => {
                            let path =
                                lockfile_module.get_canonical_source_path_from_lockfile_dir(
                                directory,
                            );
                            let manifest_dir =
                                lockfile_module.get_canonical_manifest_path_from_lockfile_dir(
                                directory,
                            );
                            let prehashed_cache_key =
                                lockfile.get_prehashed_cache_key_from_command(lockfile_command);
                            FindCommandResult::CommandFound {
                                source: path,
                                manifest_dir,
                                args: clone_opt_string(&lockfile_command.main_args),
                                module_name: lockfile_module.name.clone(),
                                prehashed_cache_key,
                            }
                        },
                        Err(e) => {
                            match e {
                                LockfileError::ModuleNotFound {
                                    package_name,
                                    package_version,
                                    module_name,
                                } => FindCommandResult::Error(
                                    FindError::ModuleNotFound {
                                        package_name,
                                        package_version,
                                        module_name,
                                    },
                                ),
                                LockfileError::CommandNotFound(c) => {
                                    proof {
                                        assert(false);
                                    }
                                    FindCommandResult::CommandNotFound(c)
                                },
                            }
                        },
                    }
                }
            },
        }
    }

    /// Resolve a command in one directory from what its loaders produced.
    /// A manifest with no lockfile beside it is an upstream fault: lockfile
    /// generation always precedes resolution, so callers must rule it out
    /// (and abort loudly) before calling.
    pub fn find_command_in_directory(
        directory: &str,
        command_name: &str,
        manifest_result: ManifestResult,
        lockfile_result: LockfileResult,
    ) -> (r: Self)
        requires
            !(manifest_result@ is Manifest && lockfile_result@ is NoLockfile),
        ensures
            r@ == spec_find_in_directory(
                command_name@,
                directory@,
                manifest_result@,
                lockfile_result@,
            ),
    {
        match (manifest_result, lockfile_result) {
            (ManifestResult::ManifestError(e), _) => FindCommandResult::Error(
                FindError::ManifestError(e),
            ),
            (_, LockfileResult::LockfileError(e)) => FindCommandResult::Error(
                FindError::LockfileError(e),
            ),
            (ManifestResult::NoManifest, LockfileResult::NoLockfile) => {
                FindCommandResult::CommandNotFound(command_name.to_owned())
            },
            (ManifestResult::NoManifest, LockfileResult::Lockfile(l)) => {
                Self::find_command_in_lockfile(command_name, l, directory)
            },
            (ManifestResult::Manifest(_m), LockfileResult::NoLockfile) => {
                proof {
                    assert(false);
                }
                FindCommandResult::CommandNotFound(command_name.to_owned())
            },
            (ManifestResult::Manifest(m), LockfileResult::Lockfile(l)) => {
                Self::find_command_in_manifest_and_lockfile(command_name, m, l, directory)
            },
        }
    }
}

/// The final execution descriptor the controller hands to the invoker.
#[derive(Debug, PartialEq)]
pub struct Command {
    pub source: String,
    pub manifest_dir: String,
    pub args: Option<String>,
    pub module_name: String,
    /// whether the command was found in the global scope
    pub is_global: bool,
    /// the content-addressed key of the locked module source, trusted only
    /// for dependency commands
    pub prehashed_cache_key: Option<String>,
}

pub ghost struct CommandView {
    pub source: Seq<char>,
    pub manifest_dir: Seq<char>,
    pub args: Option<Seq<char>>,
    pub module_name: Seq<char>,
    pub is_global: bool,
    pub prehashed_cache_key: Option<Seq<char>>,
}

impl View for Command {
    type V = CommandView;

    open spec fn view(&self) -> CommandView {
        CommandView {
            source: self.source@,
            manifest_dir: self.manifest_dir@,
            args: match self.args {
                Some(ref a) => Some(a@),
                None => None,
            },
            module_name: self.module_name@,
            is_global: self.is_global,
            prehashed_cache_key: match self.prehashed_cache_key {
                Some(ref k) => Some(k@),
                None => None,
            },
        }
    }
}

/// A found command, stamped with the scope it came from.
pub open spec fn command_of(d: FoundCommandView, is_global: bool) -> CommandView {
    CommandView {
        source: d.source,
        manifest_dir: d.manifest_dir,
        args: d.args,
        module_name: d.module_name,
        is_global,
        prehashed_cache_key: d.prehashed_cache_key,
    }
}

/// Why the whole search failed, with the command name and — for compound
/// failures — the scope's own cause in every variant.
#[derive(Debug, PartialEq)]
pub enum Error {
    CommandNotFound(String),
    CommandNotFoundInLocalDirectoryAndErrorReadingGlobalDirectory(String, String),
    ErrorReadingLocalDirectory(String, String),
    CommandFoundButCorrespondingModuleIsMissing(String, String),
    CouldNotOpenGlobalsDirectory(String, String),
}

pub ghost enum ErrorView {
    CommandNotFound(Seq<char>),
    CommandNotFoundInLocalDirectoryAndErrorReadingGlobalDirectory(Seq<char>, Seq<char>),
    ErrorReadingLocalDirectory(Seq<char>, Seq<char>),
    CommandFoundButCorrespondingModuleIsMissing(Seq<char>, Seq<char>),
    CouldNotOpenGlobalsDirectory(Seq<char>, Seq<char>),
}

impl View for Error {
    type V = ErrorView;

    open spec fn view(&self) -> ErrorView {
        match self {
            Error::CommandNotFound(c) => ErrorView::CommandNotFound(c@),
            Error::CommandNotFoundInLocalDirectoryAndErrorReadingGlobalDirectory(c, e) => {
                ErrorView::CommandNotFoundInLocalDirectoryAndErrorReadingGlobalDirectory(c@, e@)
            },
            Error::ErrorReadingLocalDirectory(c, e) => ErrorView::ErrorReadingLocalDirectory(
                c@,
                e@,
            ),
            Error::CommandFoundButCorrespondingModuleIsMissing(c, m) => {
                ErrorView::CommandFoundButCorrespondingModuleIsMissing(c@, m@)
            },
            Error::CouldNotOpenGlobalsDirectory(c, e) => ErrorView::CouldNotOpenGlobalsDirectory(
                c@,
                e@,
            ),
        }
    }
}

/// The message a search failure surfaces to the user: always the command
/// name, and for compound failures the underlying cause as well.
pub open spec fn error_message(e: ErrorView) -> Seq<char> {
    match e {
        ErrorView::CommandNotFound(c) => "Command \""@ + c
            + "\" was not found in the local directory or the global install directory."@,
        ErrorView::CommandNotFoundInLocalDirectoryAndErrorReadingGlobalDirectory(c, cause) => "Command \""@
            + c + "\" was not found in the local directory. There was an error parsing the global lockfile. "@
            + cause,
        ErrorView::ErrorReadingLocalDirectory(c, cause) => "Could not get command \""@ + c
            + "\" because there was a problem with the local package. "@ + cause,
        ErrorView::CommandFoundButCorrespondingModuleIsMissing(c, m) => "Command \""@ + c
            + "\" exists in lockfile, but corresponding module \""@ + m
            + "\" not found in lockfile."@,
        ErrorView::CouldNotOpenGlobalsDirectory(c, cause) => "Failed to get command \""@ + c
            + "\" because there was an error opening the global installation directory. "@ + cause,
    }
}

impl Error {
    /// Render the failure for the user.
    pub fn message(&self) -> (r: String)
        ensures
            r@ == error_message(self@),
    {
        match self {
            Error::CommandNotFound(c) => {
                let mut s: String = "Command \"".to_owned();
                s.append(c.as_str());
                s.append(
                    "\" was not found in the local directory or the global install directory.",
                );
                proof {
                    assert(s@ =~= error_message(self@));
                }
                s
            },
            Error::CommandNotFoundInLocalDirectoryAndErrorReadingGlobalDirectory(c, cause) => {
                let mut s: String = "Command \"".to_owned();
                s.append(c.as_str());
                s.append(
                    "\" was not found in the local directory. There was an error parsing the global lockfile. ",
                );
                s.append(cause.as_str());
                proof {
                    assert(s@ =~= error_message(self@));
                }
                s
            },
            Error::ErrorReadingLocalDirectory(c, cause) => {
                let mut s: String = "Could not get command \"".to_owned();
                s.append(c.as_str());
                s.append("\" because there was a problem with the local package. ");
                s.append(cause.as_str());
                proof {
                    assert(s@ =~= error_message(self@));
                }
                s
            },
            Error::CommandFoundButCorrespondingModuleIsMissing(c, m) => {
                let mut s: String = "Command \"".to_owned();
                s.append(c.as_str());
                s.append("\" exists in lockfile, but corresponding module \"");
                s.append(m.as_str());
                s.append("\" not found in lockfile.");
                proof {
                    assert(s@ =~= error_message(self@));
                }
                s
            },
            Error::CouldNotOpenGlobalsDirectory(c, cause) => {
                let mut s: String = "Failed to get command \"".to_owned();
                s.append(c.as_str());
                s.append(
                    "\" because there was an error opening the global installation directory. ",
                );
                s.append(cause.as_str());
                proof {
                    assert(s@ =~= error_message(self@));
                }
                s
            },
        }
    }
}

/// The outcome of the directory locator for the global scope, as a view.
pub open spec fn dir_result_view(r: Result<String, String>) -> Result<Seq<char>, Seq<char>> {
    match r {
        Ok(d) => Ok(d@),
        Err(e) => Err(e@),
    }
}

/// The whole search: the local scope first, the global scope only when the
/// local one reported a plain absence. A local error is surfaced, never
/// masked by the global scope; a failure of the global directory locator is
/// its own error; and only "absent everywhere" is `CommandNotFound`.
pub open spec fn spec_get_command_from_anywhere(
    command_name: Seq<char>,
    local_directory: Seq<char>,
    local_manifest: ManifestResultView,
    local_lockfile: LockfileResultView,
    globals_directory: Result<Seq<char>, Seq<char>>,
    global_manifest: ManifestResultView,
    global_lockfile: LockfileResultView,
) -> Result<CommandView, ErrorView> {
    match spec_find_in_directory(command_name, local_directory, local_manifest, local_lockfile) {
        FindCommandResultView::CommandFound(d) => Ok(command_of(d, false)),
        FindCommandResultView::Error(e) => Err(
            ErrorView::ErrorReadingLocalDirectory(command_name, find_error_message(e)),
        ),
        FindCommandResultView::CommandNotFound(_) => match globals_directory {
            Err(cause) => Err(ErrorView::CouldNotOpenGlobalsDirectory(command_name, cause)),
            Ok(global_dir) => match spec_find_in_directory(
                command_name,
                global_dir,
                global_manifest,
                global_lockfile,
            ) {
                FindCommandResultView::CommandFound(d) => Ok(command_of(d, true)),
                FindCommandResultView::Error(e) => Err(
                    ErrorView::CommandNotFoundInLocalDirectoryAndErrorReadingGlobalDirectory(
                        command_name,
                        find_error_message(e),
                    ),
                ),
                FindCommandResultView::CommandNotFound(_) => Err(
                    ErrorView::CommandNotFound(command_name),
                ),
            },
        },
    }
}

/// Find a command in the local directory first and the global installation
/// directory second. The loaders' outcomes for both scopes and the global
/// directory locator's outcome are taken as values; the caller reads them
/// from disk and must already have ruled out a manifest standing without a
/// lockfile in any scope it makes reachable.
pub fn get_command_from_anywhere(
    command_name: &str,
    local_directory: &str,
    local_manifest: ManifestResult,
    local_lockfile: LockfileResult,
    globals_directory: Result<String, String>,
    global_manifest: ManifestResult,
    global_lockfile: LockfileResult,
) -> (r: Result<Command, Error>)
    requires
        !(local_manifest@ is Manifest && local_lockfile@ is NoLockfile),
        (spec_find_in_directory(
            command_name@,
            local_directory@,
            local_manifest@,
            local_lockfile@,
        ) is CommandNotFound && globals_directory is Ok) ==> !(global_manifest@ is Manifest
            && global_lockfile@ is NoLockfile),
    ensures
        match spec_get_command_from_anywhere(
            command_name@,
            local_directory@,
            local_manifest@,
            local_lockfile@,
            dir_result_view(globals_directory),
            global_manifest@,
            global_lockfile@,
        ) {
            Ok(cv) => r matches Ok(c) && c@ == cv,
            Err(ev) => r matches Err(e) && e@ == ev,
        },
{
    // the local scope
    let local_command_result = FindCommandResult::find_command_in_directory(
        local_directory,
        command_name,
        local_manifest,
        local_lockfile,
    );
    match local_command_result {
        FindCommandResult::CommandNotFound(_cmd) => {},  // fall through to the global scope
        FindCommandResult::CommandFound {
            source,
            manifest_dir,
            args,
            module_name,
            prehashed_cache_key,
        } => {
            return Ok(
                Command {
                    source,
                    manifest_dir,
                    args,
                    module_name,
                    is_global: false,
                    prehashed_cache_key,
                },
            );
        },
        FindCommandResult::Error(e) => {
            return Err(
                Error::ErrorReadingLocalDirectory(command_name.to_owned(), e.message()),
            );
        },
    }
    // the global scope
    let global_dir: String = match globals_directory {
        Ok(d) => d,
        Err(cause) => {
            return Err(Error::CouldNotOpenGlobalsDirectory(command_name.to_owned(), cause));
        },
    };
    let global_command_result = FindCommandResult::find_command_in_directory(
        global_dir.as_str(),
        command_name,
        global_manifest,
        global_lockfile,
    );
    match global_command_result {
        FindCommandResult::CommandNotFound(_cmd) => Err(
            Error::CommandNotFound(command_name.to_owned()),
        ),
        FindCommandResult::CommandFound {
            source,
            manifest_dir,
            args,
            module_name,
            prehashed_cache_key,
        } => Ok(
            Command {
                source,
                manifest_dir,
                args,
                module_name,
                is_global: true,
                prehashed_cache_key,
            },
        ),
        FindCommandResult::Error(e) => Err(
            Error::CommandNotFoundInLocalDirectoryAndErrorReadingGlobalDirectory(
                command_name.to_owned(),
                e.message(),
            ),
        ),
    }
}

/// A directory holding neither a manifest nor a lockfile resolves every
/// command name to a plain absence.
pub proof fn lemma_empty_directory_finds_nothing(
    command_name: Seq<char>,
    directory: Seq<char>,
    manifest_result: ManifestResultView,
    lockfile_result: LockfileResultView,
)
    requires
        manifest_result is NoManifest,
        lockfile_result is NoLockfile,
    ensures
        spec_find_in_directory(command_name, directory, manifest_result, lockfile_result)
            == FindCommandResultView::CommandNotFound(command_name),
{
}

/// When the lockfile's command entry names the manifest's own package but a
/// module the manifest does not declare, resolution is the
/// local-inconsistency error — carrying both the command and the module
/// name — and never a plain absence.
pub proof fn lemma_local_module_missing_is_hard_error(
    command_name: Seq<char>,
    manifest: ManifestView,
    lockfile: LockfileView,
    directory: Seq<char>,
)
    requires
        find_command(lockfile.commands, command_name) matches Some(cmd) && cmd.package_name
            == manifest.package_name && find_module(manifest.modules, cmd.module) is None,
    ensures
        spec_find_in_manifest_and_lockfile(command_name, manifest, lockfile, directory)
            == FindCommandResultView::Error(
            FindErrorView::CommandFoundButCorrespondingModuleIsMissing {
                command: command_name,
                module: find_command(lockfile.commands, command_name)->Some_0.module,
            },
        ),
        !(spec_find_in_manifest_and_lockfile(
            command_name,
            manifest,
            lockfile,
            directory,
        ) is CommandNotFound),
{
}

/// A found dependency command always carries a cache key; a found local
/// command never does.
pub proof fn lemma_cache_key_policy(
    command_name: Seq<char>,
    manifest: ManifestView,
    lockfile: LockfileView,
    directory: Seq<char>,
)
    ensures
        spec_find_in_manifest_and_lockfile(command_name, manifest, lockfile, directory) matches
            FindCommandResultView::CommandFound(d) ==> {
            let cmd = find_command(lockfile.commands, command_name)->Some_0;
            &&& (cmd.package_name == manifest.package_name ==> d.prehashed_cache_key is None)
            &&& (cmd.package_name != manifest.package_name ==> d.prehashed_cache_key is Some)
        },
        spec_find_in_lockfile(command_name, lockfile, directory) matches
            FindCommandResultView::CommandFound(d) ==> d.prehashed_cache_key is Some,
{
}

/// Resolution has no hidden inputs: two resolutions of the same command
/// over unchanged manifest and lockfile content produce identical outcomes.
pub proof fn lemma_resolution_idempotent(
    first: FindCommandResultView,
    second: FindCommandResultView,
    command_name: Seq<char>,
    directory: Seq<char>,
    manifest_result: ManifestResultView,
    lockfile_result: LockfileResultView,
)
    requires
        first == spec_find_in_directory(command_name, directory, manifest_result, lockfile_result),
        second == spec_find_in_directory(
            command_name,
            directory,
            manifest_result,
            lockfile_result,
        ),
    ensures
        first == second,
{
}

/// The whole search is idempotent too: run twice over unchanged artifacts
/// and an unchanged locator outcome, it returns identical descriptors or
/// identical errors.
pub proof fn lemma_search_idempotent(
    first: Result<CommandView, ErrorView>,
    second: Result<CommandView, ErrorView>,
    command_name: Seq<char>,
    local_directory: Seq<char>,
    local_manifest: ManifestResultView,
    local_lockfile: LockfileResultView,
    globals_directory: Result<Seq<char>, Seq<char>>,
    global_manifest: ManifestResultView,
    global_lockfile: LockfileResultView,
)
    requires
        first == spec_get_command_from_anywhere(
            command_name,
            local_directory,
            local_manifest,
            local_lockfile,
            globals_directory,
            global_manifest,
            global_lockfile,
        ),
        second == spec_get_command_from_anywhere(
            command_name,
            local_directory,
            local_manifest,
            local_lockfile,
            globals_directory,
            global_manifest,
            global_lockfile,
        ),
    ensures
        first == second,
{
}

/// The local scope always wins: when the local directory resolves the
/// command, the search returns exactly that descriptor, not marked global,
/// whatever the global scope holds.
pub proof fn lemma_local_scope_takes_precedence(
    command_name: Seq<char>,
    local_directory: Seq<char>,
    local_manifest: ManifestResultView,
    local_lockfile: LockfileResultView,
    globals_directory: Result<Seq<char>, Seq<char>>,
    global_manifest: ManifestResultView,
    global_lockfile: LockfileResultView,
)
    requires
        spec_find_in_directory(
            command_name,
            local_directory,
            local_manifest,
            local_lockfile,
        ) is CommandFound,
    ensures
        spec_get_command_from_anywhere(
            command_name,
            local_directory,
            local_manifest,
            local_lockfile,
            globals_directory,
            global_manifest,
            global_lockfile,
        ) == Ok::<CommandView, ErrorView>(
            command_of(
                spec_find_in_directory(
                    command_name,
                    local_directory,
                    local_manifest,
                    local_lockfile,
                )->CommandFound_0,
                false,
            ),
        ),
        spec_get_command_from_anywhere(
            command_name,
            local_directory,
            local_manifest,
            local_lockfile,
            globals_directory,
            global_manifest,
            global_lockfile,
        ) matches Ok(c) && !c.is_global,
{
}

} // verus!
