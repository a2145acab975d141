//! The user-level configuration: the registry endpoint, telemetry and
//! update-notification switches, the proxy, and the update-check cooldown,
//! together with the derivation of the per-user directory every path hangs
//! off. Reading and writing the configuration file, the environment and the
//! home directory happen outside the library; the values they produce are
//! handed in.

use vstd::prelude::*;
use vstd::string::*;
use crate::paths::{canonicalize_relative_path, join_path};
use crate::strutil::{i32_dec_str, i32_to_string, parse_i32, parse_i32_spec, str_eq};

verus! {

/// The default number of seconds between checks for a newer package
/// version.
pub fn wax_default_cooldown() -> (r: i32)
    ensures
        r == 300,
{
    5 * 60
}

/// The registry the package manager connects to.
#[derive(Debug, PartialEq)]
pub struct Registry {
    pub url: String,
    pub token: Option<String>,
}

pub ghost struct RegistryView {
    pub url: Seq<char>,
    pub token: Option<Seq<char>>,
}

impl View for Registry {
    type V = RegistryView;

    open spec fn view(&self) -> RegistryView {
        RegistryView {
            url: self.url@,
            token: match self.token {
                Some(ref t) => Some(t@),
                None => None,
            },
        }
    }
}

/// Whether telemetry is enabled, kept as the literal text of the setting.
#[derive(Debug, PartialEq)]
pub struct Telemetry {
    pub enabled: String,
}

pub ghost struct TelemetryView {
    pub enabled: Seq<char>,
}

impl View for Telemetry {
    type V = TelemetryView;

    open spec fn view(&self) -> TelemetryView {
        TelemetryView { enabled: self.enabled@ }
    }
}

impl Default for Telemetry {
    fn default() -> (r: Telemetry)
        ensures
            r@.enabled == "true"@,
    {
        Telemetry { enabled: "true".to_owned() }
    }
}

/// Whether update notifications are enabled, kept as the literal text of
/// the setting.
#[derive(Debug, PartialEq)]
pub struct UpdateNotifications {
    pub enabled: String,
}

pub ghost struct UpdateNotificationsView {
    pub enabled: Seq<char>,
}

impl View for UpdateNotifications {
    type V = UpdateNotificationsView;

    open spec fn view(&self) -> UpdateNotificationsView {
        UpdateNotificationsView { enabled: self.enabled@ }
    }
}

impl Default for UpdateNotifications {
    fn default() -> (r: UpdateNotifications)
        ensures
            r@.enabled == "true"@,
    {
        UpdateNotifications { enabled: "true".to_owned() }
    }
}

/// The proxy used when connecting to the network, if any.
#[derive(Debug, PartialEq)]
pub struct Proxy {
    pub url: Option<String>,
}

pub ghost struct ProxyView {
    pub url: Option<Seq<char>>,
}

impl View for Proxy {
    type V = ProxyView;

    open spec fn view(&self) -> ProxyView {
        ProxyView {
            url: match self.url {
                Some(ref u) => Some(u@),
                None => None,
            },
        }
    }
}

impl Default for Proxy {
    fn default() -> (r: Proxy)
        ensures
            r@.url is None,
    {
        Proxy { url: None }
    }
}

/// The whole configuration.
#[derive(Debug, PartialEq)]
pub struct Config {
    /// Seconds to wait before checking the registry for a newer package
    /// version.
    pub wax_cooldown: i32,
    /// The registry the package manager connects to.
    pub registry: Registry,
    /// Whether telemetry is enabled.
    pub telemetry: Telemetry,
    /// Whether update notifications are enabled.
    pub update_notifications: UpdateNotifications,
    /// The proxy used when connecting to the network.
    pub proxy: Proxy,
}

pub ghost struct ConfigView {
    pub wax_cooldown: i32,
    pub registry: RegistryView,
    pub telemetry: TelemetryView,
    pub update_notifications: UpdateNotificationsView,
    pub proxy: ProxyView,
}

impl View for Config {
    type V = ConfigView;

    open spec fn view(&self) -> ConfigView {
        ConfigView {
            wax_cooldown: self.wax_cooldown,
            registry: self.registry@,
            telemetry: self.telemetry@,
            update_notifications: self.update_notifications@,
            proxy: self.proxy@,
        }
    }
}

/// The configuration a fresh installation starts from.
pub open spec fn spec_default_config() -> ConfigView {
    ConfigView {
        wax_cooldown: 300,
        registry: RegistryView { url: "https://registry.wapm.io"@, token: None },
        telemetry: TelemetryView { enabled: "true"@ },
        update_notifications: UpdateNotificationsView { enabled: "true"@ },
        proxy: ProxyView { url: None },
    }
}

impl Default for Config {
    fn default() -> (r: Config)
        ensures
            r@ == spec_default_config(),
    {
        Config {
            registry: Registry { url: "https://registry.wapm.io".to_owned(), token: None },
            telemetry: Telemetry::default(),
            update_notifications: UpdateNotifications::default(),
            proxy: Proxy::default(),
            wax_cooldown: wax_default_cooldown(),
        }
    }
}

/// Why the configuration or its directory could not be produced. Callers
/// that read files or create directories record the underlying failure text
/// here.
#[derive(Debug, PartialEq)]
pub enum GlobalConfigError {
    Io(String),
    Toml(String),
    CannotFindHomeDirectory,
    CannotCreateConfigDirectory(String),
}

pub ghost enum GlobalConfigErrorView {
    Io(Seq<char>),
    Toml(Seq<char>),
    CannotFindHomeDirectory,
    CannotCreateConfigDirectory(Seq<char>),
}

impl View for GlobalConfigError {
    type V = GlobalConfigErrorView;

    open spec fn view(&self) -> GlobalConfigErrorView {
        match self {
            GlobalConfigError::Io(e) => GlobalConfigErrorView::Io(e@),
            GlobalConfigError::Toml(e) => GlobalConfigErrorView::Toml(e@),
            GlobalConfigError::CannotFindHomeDirectory => {
                GlobalConfigErrorView::CannotFindHomeDirectory
            },
            GlobalConfigError::CannotCreateConfigDirectory(e) => {
                GlobalConfigErrorView::CannotCreateConfigDirectory(e@)
            },
        }
    }
}

/// The message a configuration failure surfaces to the user.
pub open spec fn global_config_error_message(e: GlobalConfigErrorView) -> Seq<char> {
    match e {
        GlobalConfigErrorView::Io(s) => "Error while reading config: ["@ + s + "]"@,
        GlobalConfigErrorView::Toml(s) => "Error while reading config: ["@ + s + "]"@,
        GlobalConfigErrorView::CannotFindHomeDirectory => "While falling back to the default location for WASMER_DIR, could not resolve the user's home directory"@,
        GlobalConfigErrorView::CannotCreateConfigDirectory(s) => "Error while creating config directory: ["@
            + s + "]"@,
    }
}

impl GlobalConfigError {
    /// Render the failure for the user.
    pub fn message(&self) -> (r: String)
        ensures
            r@ == global_config_error_message(self@),
    {
        match self {
            GlobalConfigError::Io(e) => {
                let mut s: String = "Error while reading config: [".to_owned();
                s.append(e.as_str());
                s.append("]");
                proof {
                    assert(s@ =~= global_config_error_message(self@));
                }
                s
            },
            GlobalConfigError::Toml(e) => {
                let mut s: String = "Error while reading config: [".to_owned();
                s.append(e.as_str());
                s.append("]");
                proof {
                    assert(s@ =~= global_config_error_message(self@));
                }
                s
            },
            GlobalConfigError::CannotFindHomeDirectory => {
                "While falling back to the default location for WASMER_DIR, could not resolve the user's home directory".to_owned()
            },
            GlobalConfigError::CannotCreateConfigDirectory(e) => {
                let mut s: String = "Error while creating config directory: [".to_owned();
                s.append(e.as_str());
                s.append("]");
                proof {
                    assert(s@ =~= global_config_error_message(self@));
                }
                s
            },
        }
    }
}

/// The per-user directory everything hangs off: a non-empty environment
/// override wins, otherwise `.wasmer` under the home directory; with no
/// home directory there is nowhere to fall back to.
pub open spec fn spec_get_folder(
    env_override: Option<Seq<char>>,
    home_dir: Option<Seq<char>>,
) -> Result<Seq<char>, GlobalConfigErrorView> {
    match env_override {
        Some(s) if s.len() > 0 => Ok(s),
        _ => match home_dir {
            Some(h) => Ok(join_path(h, ".wasmer"@)),
            None => Err(GlobalConfigErrorView::CannotFindHomeDirectory),
        },
    }
}

impl Config {
    /// Decide the per-user directory from the environment override and the
    /// home directory, both read by the caller. The caller creates the
    /// directory afterwards.
    pub fn get_folder(env_override: Option<String>, home_dir: Option<String>) -> (r: Result<
        String,
        GlobalConfigError,
    >)
        ensures
            match spec_get_folder(
                match env_override {
                    Some(ref s) => Some(s@),
                    None => None,
                },
                match home_dir {
                    Some(ref h) => Some(h@),
                    None => None,
                },
            ) {
                Ok(f) => r matches Ok(s) && s@ == f,
                Err(ev) => r matches Err(e) && e@ == ev,
            },
    {
        let use_override: bool = match &env_override {
            Some(s) => !s.as_str().is_empty(),
            None => false,
        };
        if use_override {
            match env_override {
                Some(s) => Ok(s),
                None => {
                    proof {
                        assert(false);
                    }
                    Err(GlobalConfigError::CannotFindHomeDirectory)
                },
            }
        } else {
            match home_dir {
                Some(h) => Ok(canonicalize_relative_path(h.as_str(), ".wasmer")),
                None => Err(GlobalConfigError::CannotFindHomeDirectory),
            }
        }
    }

    /// Where the configuration file itself lives inside the per-user
    /// directory.
    pub fn get_file_location(folder: &str) -> (r: String)
        ensures
            r@ == join_path(folder@, "wapm.toml"@),
    {
        canonicalize_relative_path(folder, "wapm.toml")
    }

    /// Where the update-check index lives inside the per-user directory.
    pub fn get_wax_file_path(folder: &str) -> (r: String)
        ensures
            r@ == join_path(folder@, ".wax_index.json"@),
    {
        canonicalize_relative_path(folder, ".wax_index.json")
    }

    /// Where the package database lives inside the per-user directory.
    pub fn get_database_file_path(folder: &str) -> (r: String)
        ensures
            r@ == join_path(folder@, "wapm.sqlite"@),
    {
        canonicalize_relative_path(folder, "wapm.sqlite")
    }

    /// Where globally installed packages live inside the per-user
    /// directory: the global scope of the command search.
    pub fn get_globals_directory(folder: &str) -> (r: String)
        ensures
            r@ == join_path(folder@, "globals"@),
    {
        canonicalize_relative_path(folder, "globals")
    }

    /// Whether update notifications are on: what a loaded configuration
    /// says, and on by default when none could be loaded.
    pub fn update_notifications_enabled(loaded: Option<&Config>) -> (r: bool)
        ensures
            r == match loaded {
                Some(c) => c@.update_notifications.enabled == "true"@,
                None => true,
            },
    {
        match loaded {
            Some(c) => str_eq(c.update_notifications.enabled.as_str(), "true"),
            None => true,
        }
    }
}

/// The GraphQL endpoint under a registry URL: `graphql` appended behind
/// exactly one slash.
pub open spec fn spec_graphql_url(url: Seq<char>) -> Seq<char> {
    if url.len() > 0 && url.last() == '/' {
        url + "graphql"@
    } else {
        url + "/graphql"@
    }
}

impl Registry {
    /// The GraphQL endpoint of this registry.
    pub fn get_graphql_url(&self) -> (r: String)
        ensures
            r@ == spec_graphql_url(self@.url),
    {
        let n: usize = self.url.as_str().unicode_len();
        let mut s: String = self.url.clone();
        if n > 0 && self.url.as_str().get_char(n - 1) == '/' {
            s.append("graphql");
        } else {
            s.append("/graphql");
        }
        s
    }
}

/// Why a configuration key could not be read or written.
#[derive(Debug, PartialEq)]
pub enum ConfigError {
    KeyNotFound { key: String },
    CanNotParse { value: String, key: String },
}

pub ghost enum ConfigErrorView {
    KeyNotFound { key: Seq<char> },
    CanNotParse { value: Seq<char>, key: Seq<char> },
}

impl View for ConfigError {
    type V = ConfigErrorView;

    open spec fn view(&self) -> ConfigErrorView {
        match self {
            ConfigError::KeyNotFound { key } => ConfigErrorView::KeyNotFound { key: key@ },
            ConfigError::CanNotParse { value, key } => ConfigErrorView::CanNotParse {
                value: value@,
                key: key@,
            },
        }
    }
}

/// The message a key failure surfaces to the user.
pub open spec fn config_error_message(e: ConfigErrorView) -> Seq<char> {
    match e {
        ConfigErrorView::KeyNotFound { key } => "Key not found: "@ + key,
        ConfigErrorView::CanNotParse { value, key } => "Failed to parse value `"@ + value
            + "` for key `"@ + key + "`"@,
    }
}

impl ConfigError {
    /// Render the failure for the user.
    pub fn message(&self) -> (r: String)
        ensures
            r@ == config_error_message(self@),
    {
        match self {
            ConfigError::KeyNotFound { key } => {
                let mut s: String = "Key not found: ".to_owned();
                s.append(key.as_str());
                proof {
                    assert(s@ =~= config_error_message(self@));
                }
                s
            },
            ConfigError::CanNotParse { value, key } => {
                let mut s: String = "Failed to parse value `".to_owned();
                s.append(value.as_str());
                s.append("` for key `");
                s.append(key.as_str());
                s.append("`");
                proof {
                    assert(s@ =~= config_error_message(self@));
                }
                s
            },
        }
    }
}

/// What writing one key does to the configuration: the new configuration,
/// or the error and no change. Setting a new registry URL resets the token;
/// setting the same URL again keeps it. An empty proxy URL clears the
/// proxy. The cooldown must parse as an `i32`.
pub open spec fn spec_set(c: ConfigView, key: Seq<char>, value: Seq<char>) -> Result<
    ConfigView,
    ConfigErrorView,
> {
    if key == "registry.url"@ {
        Ok(
            ConfigView {
                registry: RegistryView {
                    url: value,
                    token: if c.registry.url == value {
                        c.registry.token
                    } else {
                        None
                    },
                },
                ..c
            },
        )
    } else if key == "registry.token"@ {
        Ok(ConfigView { registry: RegistryView { token: Some(value), ..c.registry }, ..c })
    } else if key == "telemetry.enabled"@ {
        Ok(ConfigView { telemetry: TelemetryView { enabled: value }, ..c })
    } else if key == "update-notifications.enabled"@ {
        Ok(ConfigView { update_notifications: UpdateNotificationsView { enabled: value }, ..c })
    } else if key == "proxy.url"@ {
        Ok(
            ConfigView {
                proxy: ProxyView {
                    url: if value.len() == 0 {
                        None
                    } else {
                        Some(value)
                    },
                },
                ..c
            },
        )
    } else if key == "wax.cooldown"@ {
        match parse_i32_spec(value) {
            Some(n) => Ok(ConfigView { wax_cooldown: n, ..c }),
            None => Err(ConfigErrorView::CanNotParse { value, key }),
        }
    } else {
        Err(ConfigErrorView::KeyNotFound { key })
    }
}

/// Write one configuration key. The caller persists the configuration
/// afterwards when this returns success.
pub fn set(config: &mut Config, key: String, value: String) -> (r: Result<(), ConfigError>)
    ensures
        match spec_set(old(config)@, key@, value@) {
            Ok(cv) => r is Ok && final(config)@ == cv,
            Err(ev) => (r matches Err(e) && e@ == ev) && final(config)@ == old(config)@,
        },
{
    if str_eq(key.as_str(), "registry.url") {
        if !(config.registry.url == value) {
            config.registry.url = value;
            // a new registry invalidates the old registry's token
            config.registry.token = None;
        }
        Ok(())
    } else if str_eq(key.as_str(), "registry.token") {
        config.registry.token = Some(value);
        Ok(())
    } else if str_eq(key.as_str(), "telemetry.enabled") {
        config.telemetry.enabled = value;
        Ok(())
    } else if str_eq(key.as_str(), "update-notifications.enabled") {
        config.update_notifications.enabled = value;
        Ok(())
    } else if str_eq(key.as_str(), "proxy.url") {
        config.proxy.url = if value.as_str().is_empty() {
            None
        } else {
            Some(value)
        };
        Ok(())
    } else if str_eq(key.as_str(), "wax.cooldown") {
        match parse_i32(value.as_str()) {
            Some(num) => {
                config.wax_cooldown = num;
                Ok(())
            },
            None => Err(ConfigError::CanNotParse { value, key }),
        }
    } else {
        Err(ConfigError::KeyNotFound { key })
    }
}

/// What reading one key returns. The registry token is deliberately not
/// readable through this interface and is excluded by precondition.
pub open spec fn spec_get(c: ConfigView, key: Seq<char>) -> Result<Seq<char>, ConfigErrorView> {
    if key == "registry.url"@ {
        Ok(c.registry.url)
    } else if key == "telemetry.enabled"@ {
        Ok(c.telemetry.enabled)
    } else if key == "update-notifications.enabled"@ {
        Ok(c.update_notifications.enabled)
    } else if key == "proxy.url"@ {
        Ok(
            match c.proxy.url {
                Some(u) => u,
                None => "No proxy configured"@,
            },
        )
    } else if key == "wax.cooldown"@ {
        Ok(i32_dec_str(c.wax_cooldown as int))
    } else {
        Err(ConfigErrorView::KeyNotFound { key })
    }
}

/// Read one configuration key back as text.
pub fn get(config: &mut Config, key: String) -> (r: Result<String, ConfigError>)
    requires
        key@ != "registry.token"@,
    ensures
        *final(config) == *old(config),
        match spec_get(old(config)@, key@) {
            Ok(v) => r matches Ok(s) && s@ == v,
            Err(ev) => r matches Err(e) && e@ == ev,
        },
{
    if str_eq(key.as_str(), "registry.url") {
        Ok(config.registry.url.clone())
    } else if str_eq(key.as_str(), "telemetry.enabled") {
        Ok(config.telemetry.enabled.clone())
    } else if str_eq(key.as_str(), "update-notifications.enabled") {
        Ok(config.update_notifications.enabled.clone())
    } else if str_eq(key.as_str(), "proxy.url") {
        match &config.proxy.url {
            Some(url) => Ok(url.clone()),
            None => Ok("No proxy configured".to_owned()),
        }
    } else if str_eq(key.as_str(), "wax.cooldown") {
        Ok(i32_to_string(config.wax_cooldown))
    } else {
        Err(ConfigError::KeyNotFound { key })
    }
}

} // verus!
