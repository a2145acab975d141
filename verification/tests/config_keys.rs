use wapm::config::{wax_default_cooldown, Config, ConfigError, GlobalConfigError, Registry};

#[test]
fn default_config_values() {
    let c = Config::default();
    assert_eq!(c.registry.url, "https://registry.wapm.io");
    assert_eq!(c.registry.token, None);
    assert_eq!(c.wax_cooldown, 300);
    assert_eq!(c.telemetry.enabled, "true");
    assert_eq!(c.update_notifications.enabled, "true");
    assert_eq!(c.proxy.url, None);
    assert_eq!(wax_default_cooldown(), 300);
}

#[test]
fn setting_a_new_registry_url_resets_the_token() {
    let mut c = Config::default();
    c.registry.token = Some("SECRET-REDACTED".to_string());
    wapm::config::set(&mut c, "registry.url".to_string(), "https://example.org".to_string()).unwrap();
    assert_eq!(c.registry.url, "https://example.org");
    assert_eq!(c.registry.token, None);
}

#[test]
fn setting_the_same_registry_url_keeps_the_token() {
    let mut c = Config::default();
    c.registry.token = Some("SECRET-REDACTED".to_string());
    wapm::config::set(
        &mut c,
        "registry.url".to_string(),
        "https://registry.wapm.io".to_string(),
    )
    .unwrap();
    assert_eq!(c.registry.token, Some("SECRET-REDACTED".to_string()));
}

#[test]
fn setting_the_registry_token() {
    let mut c = Config::default();
    wapm::config::set(&mut c, "registry.token".to_string(), "SECRET-REDACTED".to_string()).unwrap();
    assert_eq!(c.registry.token, Some("SECRET-REDACTED".to_string()));
}

#[test]
fn setting_switches_and_proxy() {
    let mut c = Config::default();
    wapm::config::set(&mut c, "telemetry.enabled".to_string(), "false".to_string()).unwrap();
    assert_eq!(c.telemetry.enabled, "false");
    wapm::config::set(
        &mut c,
        "update-notifications.enabled".to_string(),
        "false".to_string(),
    )
    .unwrap();
    assert_eq!(c.update_notifications.enabled, "false");
    wapm::config::set(&mut c, "proxy.url".to_string(), "http://proxy:3128".to_string()).unwrap();
    assert_eq!(c.proxy.url, Some("http://proxy:3128".to_string()));
    // an empty value clears the proxy
    wapm::config::set(&mut c, "proxy.url".to_string(), "".to_string()).unwrap();
    assert_eq!(c.proxy.url, None);
}

#[test]
fn setting_the_cooldown_parses_the_value() {
    let mut c = Config::default();
    wapm::config::set(&mut c, "wax.cooldown".to_string(), "42".to_string()).unwrap();
    assert_eq!(c.wax_cooldown, 42);
    wapm::config::set(&mut c, "wax.cooldown".to_string(), "-7".to_string()).unwrap();
    assert_eq!(c.wax_cooldown, -7);
    let e = wapm::config::set(&mut c, "wax.cooldown".to_string(), "abc".to_string()).unwrap_err();
    assert_eq!(
        e,
        ConfigError::CanNotParse { value: "abc".to_string(), key: "wax.cooldown".to_string() }
    );
    // the failed write leaves the old value in place
    assert_eq!(c.wax_cooldown, -7);
    let e = wapm::config::set(&mut c, "wax.cooldown".to_string(), "99999999999".to_string()).unwrap_err();
    assert!(matches!(e, ConfigError::CanNotParse { .. }));
}

#[test]
fn unknown_keys_are_rejected() {
    let mut c = Config::default();
    let e = wapm::config::set(&mut c, "no.such.key".to_string(), "v".to_string()).unwrap_err();
    assert_eq!(e, ConfigError::KeyNotFound { key: "no.such.key".to_string() });
    let e = wapm::config::get(&mut c, "no.such.key".to_string()).unwrap_err();
    assert_eq!(e, ConfigError::KeyNotFound { key: "no.such.key".to_string() });
    assert_eq!(e.message(), "Key not found: no.such.key");
}

#[test]
fn getting_keys_back_as_text() {
    let mut c = Config::default();
    assert_eq!(
        wapm::config::get(&mut c, "registry.url".to_string()).unwrap(),
        "https://registry.wapm.io"
    );
    assert_eq!(wapm::config::get(&mut c, "telemetry.enabled".to_string()).unwrap(), "true");
    assert_eq!(
        wapm::config::get(&mut c, "update-notifications.enabled".to_string()).unwrap(),
        "true"
    );
    assert_eq!(wapm::config::get(&mut c, "proxy.url".to_string()).unwrap(), "No proxy configured");
    wapm::config::set(&mut c, "proxy.url".to_string(), "http://proxy:3128".to_string()).unwrap();
    assert_eq!(wapm::config::get(&mut c, "proxy.url".to_string()).unwrap(), "http://proxy:3128");
    assert_eq!(wapm::config::get(&mut c, "wax.cooldown".to_string()).unwrap(), "300");
    wapm::config::set(&mut c, "wax.cooldown".to_string(), "-12".to_string()).unwrap();
    assert_eq!(wapm::config::get(&mut c, "wax.cooldown".to_string()).unwrap(), "-12");
}

#[test]
fn folder_choice_prefers_nonempty_override() {
    let r = Config::get_folder(Some("/custom/wasmer".to_string()), Some("/home/u".to_string()));
    assert_eq!(r.unwrap(), "/custom/wasmer");
}

#[test]
fn folder_choice_falls_back_to_home() {
    let r = Config::get_folder(Some("".to_string()), Some("/home/u".to_string()));
    assert_eq!(r.unwrap(), "/home/u/.wasmer");
    let r = Config::get_folder(None, Some("/home/u".to_string()));
    assert_eq!(r.unwrap(), "/home/u/.wasmer");
}

#[test]
fn folder_choice_without_home_fails() {
    let r = Config::get_folder(None, None);
    assert_eq!(r.unwrap_err(), GlobalConfigError::CannotFindHomeDirectory);
    assert_eq!(
        GlobalConfigError::CannotFindHomeDirectory.message(),
        "While falling back to the default location for WASMER_DIR, could not resolve the user's home directory"
    );
}

#[test]
fn paths_under_the_folder() {
    assert_eq!(Config::get_file_location("/h/.wasmer"), "/h/.wasmer/wapm.toml");
    assert_eq!(Config::get_wax_file_path("/h/.wasmer"), "/h/.wasmer/.wax_index.json");
    assert_eq!(Config::get_database_file_path("/h/.wasmer"), "/h/.wasmer/wapm.sqlite");
    assert_eq!(Config::get_globals_directory("/h/.wasmer"), "/h/.wasmer/globals");
}

#[test]
fn update_notifications_enabled_reads_the_switch() {
    let c = Config::default();
    assert!(Config::update_notifications_enabled(Some(&c)));
    let mut off = Config::default();
    off.update_notifications.enabled = "false".to_string();
    assert!(!Config::update_notifications_enabled(Some(&off)));
    // unreadable configuration defaults to enabled
    assert!(Config::update_notifications_enabled(None));
}

#[test]
fn graphql_url_appends_exactly_one_slash() {
    let r = Registry { url: "https://registry.wapm.io".to_string(), token: None };
    assert_eq!(r.get_graphql_url(), "https://registry.wapm.io/graphql");
    let r = Registry { url: "https://registry.wapm.io/".to_string(), token: None };
    assert_eq!(r.get_graphql_url(), "https://registry.wapm.io/graphql");
}

#[test]
fn config_error_messages() {
    let e = ConfigError::CanNotParse { value: "zz".to_string(), key: "wax.cooldown".to_string() };
    assert_eq!(e.message(), "Failed to parse value `zz` for key `wax.cooldown`");
    let e = GlobalConfigError::Io("permission denied".to_string());
    assert_eq!(e.message(), "Error while reading config: [permission denied]");
    let e = GlobalConfigError::Toml("expected a table".to_string());
    assert_eq!(e.message(), "Error while reading config: [expected a table]");
    let e = GlobalConfigError::CannotCreateConfigDirectory("disk full".to_string());
    assert_eq!(e.message(), "Error while creating config directory: [disk full]");
}
