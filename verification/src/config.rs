//! Process configuration: defaults, overrides from environment settings,
//! and the choice of a listening port.

use crate::decimal::{numeral, parse_decimal, parse_unsigned, push_decimal, NumberError};
use vstd::prelude::*;
use vstd::string::StringExecFns;

verus! {

/// Ports probed beyond the configured one before giving up.
pub const PORT_SEARCH_ATTEMPTS: u16 = 100;

/// Application settings.
#[derive(Debug, Clone)]
pub struct AppConfig {
    pub server: ServerConfig,
    pub oauth: OAuthConfig,
}

/// Where the service listens and how it logs.
#[derive(Debug, Clone)]
pub struct ServerConfig {
    pub host: String,
    pub port: u16,
    pub log_level: String,
}

/// What the authorization flow is run with.
#[derive(Debug, Clone)]
pub struct OAuthConfig {
    /// The provider's authorize endpoint.
    pub auth_url: String,
    pub client_id: String,
    /// Minutes a pending authorization stays valid.
    pub state_expire_minutes: u32,
}

/// The settings found in the environment, as text. `None` stands for a
/// variable that is not set.
#[derive(Debug, Clone)]
pub struct EnvSettings {
    pub host: Option<String>,
    pub port: Option<String>,
    pub log_level: Option<String>,
    pub auth_url: Option<String>,
    pub client_id: Option<String>,
    pub state_expire_minutes: Option<String>,
}

/// Why no configuration could be had.
#[derive(Debug, Clone, PartialEq, Eq)]
pub enum ConfigError {
    /// The port setting is not the numeral of a port.
    InvalidPort { value: String, reason: NumberError },
    /// The expiration setting is not the numeral of a number of minutes.
    InvalidExpireMinutes { value: String, reason: NumberError },
    /// No port from `first` to `last` is free.
    NoAvailablePort { first: u32, last: u32 },
    /// The configured port is taken and no port from `first` to `last`
    /// behind it is free.
    ServerPortUnavailable { first: u32, last: u32 },
}

pub struct ServerConfigView {
    pub host: Seq<char>,
    pub port: u16,
    pub log_level: Seq<char>,
}

pub struct OAuthConfigView {
    pub auth_url: Seq<char>,
    pub client_id: Seq<char>,
    pub state_expire_minutes: u32,
}

pub struct AppConfigView {
    pub server: ServerConfigView,
    pub oauth: OAuthConfigView,
}

pub struct EnvSettingsView {
    pub host: Option<Seq<char>>,
    pub port: Option<Seq<char>>,
    pub log_level: Option<Seq<char>>,
    pub auth_url: Option<Seq<char>>,
    pub client_id: Option<Seq<char>>,
    pub state_expire_minutes: Option<Seq<char>>,
}

pub enum ConfigErrorView {
    InvalidPort { value: Seq<char>, reason: NumberError },
    InvalidExpireMinutes { value: Seq<char>, reason: NumberError },
    NoAvailablePort { first: u32, last: u32 },
    ServerPortUnavailable { first: u32, last: u32 },
}

impl View for ServerConfig {
    type V = ServerConfigView;

    open spec fn view(&self) -> ServerConfigView {
        ServerConfigView { host: self.host@, port: self.port, log_level: self.log_level@ }
    }
}

impl View for OAuthConfig {
    type V = OAuthConfigView;

    open spec fn view(&self) -> OAuthConfigView {
        OAuthConfigView {
            auth_url: self.auth_url@,
            client_id: self.client_id@,
            state_expire_minutes: self.state_expire_minutes,
        }
    }
}

impl View for AppConfig {
    type V = AppConfigView;

    open spec fn view(&self) -> AppConfigView {
        AppConfigView { server: self.server@, oauth: self.oauth@ }
    }
}

pub open spec fn text_view(text: Option<String>) -> Option<Seq<char>> {
    match text {
        Some(text) => Some(text@),
        None => None,
    }
}

impl View for EnvSettings {
    type V = EnvSettingsView;

    open spec fn view(&self) -> EnvSettingsView {
        EnvSettingsView {
            host: text_view(self.host),
            port: text_view(self.port),
            log_level: text_view(self.log_level),
            auth_url: text_view(self.auth_url),
            client_id: text_view(self.client_id),
            state_expire_minutes: text_view(self.state_expire_minutes),
        }
    }
}

impl View for ConfigError {
    type V = ConfigErrorView;

    open spec fn view(&self) -> ConfigErrorView {
        match *self {
            ConfigError::InvalidPort { value, reason } => ConfigErrorView::InvalidPort {
                value: value@,
                reason,
            },
            ConfigError::InvalidExpireMinutes {
                value,
                reason,
            } => ConfigErrorView::InvalidExpireMinutes { value: value@, reason },
            ConfigError::NoAvailablePort { first, last } => ConfigErrorView::NoAvailablePort {
                first,
                last,
            },
            ConfigError::ServerPortUnavailable {
                first,
                last,
            } => ConfigErrorView::ServerPortUnavailable { first, last },
        }
    }
}

/// The settings in force where nothing overrides them.
pub open spec fn default_config() -> AppConfigView {
    AppConfigView {
        server: ServerConfigView { host: "0.0.0.0"@, port: 3000, log_level: "info"@ },
        oauth: OAuthConfigView {
            auth_url: "https://auth.augmentcode.com/authorize"@,
            client_id: "v"@,
            state_expire_minutes: 30,
        },
    }
}

/// A text setting, where it is given, replaces the current value.
pub open spec fn overridden(setting: Option<Seq<char>>, current: Seq<char>) -> Seq<char> {
    match setting {
        Some(text) => text,
        None => current,
    }
}

/// `config` with every setting of `env` that is given put in its place.
/// The port and the expiration window must be numerals within the range of
/// their types; the port is looked at first.
pub open spec fn env_applied(config: AppConfigView, env: EnvSettingsView) -> Result<
    AppConfigView,
    ConfigErrorView,
> {
    let port = match env.port {
        Some(text) => parse_unsigned(text, u16::MAX as nat),
        None => Ok(config.server.port as nat),
    };
    let minutes = match env.state_expire_minutes {
        Some(text) => parse_unsigned(text, u32::MAX as nat),
        None => Ok(config.oauth.state_expire_minutes as nat),
    };
    match (port, minutes) {
        (Err(reason), _) => Err(ConfigErrorView::InvalidPort { value: env.port->0, reason }),
        (Ok(_), Err(reason)) => Err(
            ConfigErrorView::InvalidExpireMinutes { value: env.state_expire_minutes->0, reason },
        ),
        (Ok(port), Ok(minutes)) => Ok(
            AppConfigView {
                server: ServerConfigView {
                    host: overridden(env.host, config.server.host),
                    port: port as u16,
                    log_level: overridden(env.log_level, config.server.log_level),
                },
                oauth: OAuthConfigView {
                    auth_url: overridden(env.auth_url, config.oauth.auth_url),
                    client_id: overridden(env.client_id, config.oauth.client_id),
                    state_expire_minutes: minutes as u32,
                },
            },
        ),
    }
}

/// The configuration loaded from the environment as it stands before and
/// after a configuration file is read into it: the defaults, overridden by
/// the first settings and then by the second.
pub open spec fn loaded(before_file: EnvSettingsView, after_file: EnvSettingsView) -> Result<
    AppConfigView,
    ConfigErrorView,
> {
    match env_applied(default_config(), before_file) {
        Ok(config) => env_applied(config, after_file),
        Err(error) => Err(error),
    }
}

/// Whether an outcome is the one that the model gives.
pub open spec fn config_outcome(
    outcome: Result<AppConfig, ConfigError>,
    model: Result<AppConfigView, ConfigErrorView>,
) -> bool {
    match outcome {
        Ok(config) => model == Ok::<AppConfigView, ConfigErrorView>(config@),
        Err(error) => model == Err::<AppConfigView, ConfigErrorView>(error@),
    }
}

/// The address text of a host and a port: the two joined by a colon.
pub open spec fn address_text(host: Seq<char>, port: u16) -> Seq<char> {
    host + seq![':'] + numeral(port as nat)
}

fn override_text(setting: &Option<String>, current: String) -> (text: String)
    ensures
        text@ == overridden(text_view(*setting), current@),
{
    match setting {
        Some(given) => given.clone(),
        None => current,
    }
}

impl Default for AppConfig {
    fn default() -> (config: Self)
        ensures
            config@ == default_config(),
    {
        AppConfig {
            server: ServerConfig {
                host: "0.0.0.0".to_string(),
                port: 3000,
                log_level: "info".to_string(),
            },
            oauth: OAuthConfig {
                auth_url: "https://auth.augmentcode.com/authorize".to_string(),
                client_id: "v".to_string(),
                state_expire_minutes: 30,
            },
        }
    }
}

impl AppConfig {
    /// Loads the configuration from the settings that the environment held
    /// before and after the configuration file was read into it. Settings
    /// that were in the environment from the start come first in both, so
    /// they win over the file.
    pub fn load(before_file: &EnvSettings, after_file: &EnvSettings) -> (outcome: Result<
        AppConfig,
        ConfigError,
    >)
        ensures
            config_outcome(outcome, loaded(before_file@, after_file@)),
    {
        let defaults = AppConfig::default();
        match defaults.load_from_env(before_file) {
            Ok(config) => config.load_from_env(after_file),
            Err(error) => Err(error),
        }
    }

    /// Puts every setting that `env` gives in its place.
    pub fn load_from_env(self, env: &EnvSettings) -> (outcome: Result<AppConfig, ConfigError>)
        ensures
            config_outcome(outcome, env_applied(self@, env@)),
    {
        let port = match &env.port {
            Some(text) => match parse_decimal(text.as_str(), 65535) {
                Ok(port) => port as u16,
                Err(reason) => {
                    return Err(ConfigError::InvalidPort { value: text.clone(), reason });
                },
            },
            None => self.server.port,
        };
        let state_expire_minutes = match &env.state_expire_minutes {
            Some(text) => match parse_decimal(text.as_str(), u32::MAX) {
                Ok(minutes) => minutes,
                Err(reason) => {
                    return Err(ConfigError::InvalidExpireMinutes { value: text.clone(), reason });
                },
            },
            None => self.oauth.state_expire_minutes,
        };
        Ok(
            AppConfig {
                server: ServerConfig {
                    host: override_text(&env.host, self.server.host),
                    port,
                    log_level: override_text(&env.log_level, self.server.log_level),
                },
                oauth: OAuthConfig {
                    auth_url: override_text(&env.auth_url, self.oauth.auth_url),
                    client_id: override_text(&env.client_id, self.oauth.client_id),
                    state_expire_minutes,
                },
            },
        )
    }

    /// The address the server listens on, as `host:port`.
    pub fn server_addr(&self) -> (addr: String)
        ensures
            addr@ == address_text(self.server.host@, self.server.port),
    {
        proof {
            reveal_strlit(":");
        }
        let mut addr = self.server.host.clone();
        addr.append(":");
        assert(addr@ =~= self.server.host@ + seq![':']);
        push_decimal(&mut addr, self.server.port as u64);
        addr
    }
}

/// The port just past the last one that a search of `max_attempts` ports
/// from `start_port` looks at. The search stops at the end of the port
/// range.
pub open spec fn search_end(start_port: u16, max_attempts: u16) -> int {
    if start_port + max_attempts <= u16::MAX {
        start_port + max_attempts
    } else {
        u16::MAX + 1
    }
}

/// The error of a search that found no free port.
pub open spec fn search_failure(start_port: u16, max_attempts: u16) -> ConfigErrorView {
    ConfigErrorView::NoAvailablePort {
        first: start_port as u32,
        last: if start_port + max_attempts == 0 {
            0u32
        } else {
            (start_port + max_attempts - 1) as u32
        },
    }
}

/// Finds the first port that `probe` reports as free on `host`, among
/// `max_attempts` ports from `start_port` upwards: `probe` answered that the
/// port returned is free and that every port before it is taken. Where it
/// answered that all of them are taken, the search fails.
pub fn find_available_port<F: Fn(&str, u16) -> bool>(
    host: &str,
    start_port: u16,
    max_attempts: u16,
    probe: F,
) -> (found: Result<u16, ConfigError>)
    requires
        forall|port: u16| call_requires(probe, (host, port)),
    ensures
        match found {
            Ok(port) => {
                &&& start_port <= port < search_end(start_port, max_attempts)
                &&& call_ensures(probe, (host, port), true)
                &&& forall|earlier: u16|
                    start_port <= earlier < port ==> call_ensures(probe, (host, earlier), false)
            },
            Err(error) => {
                &&& error@ == search_failure(start_port, max_attempts)
                &&& forall|port: u16|
                    start_port <= port < search_end(start_port, max_attempts) ==> call_ensures(
                        probe,
                        (host, port),
                        false,
                    )
            },
        },
{
    let end: u32 = start_port as u32 + max_attempts as u32;
    let mut port: u32 = start_port as u32;
    while port < end && port <= 65535
        invariant
            start_port <= port,
            end == start_port + max_attempts,
            port <= search_end(start_port, max_attempts),
            forall|port: u16| call_requires(probe, (host, port)),
            forall|earlier: u16|
                start_port <= earlier < port ==> call_ensures(probe, (host, earlier), false),
        decreases end - port,
    {
        if probe(host, port as u16) {
            return Ok(port as u16);
        }
        port = port + 1;
    }
    Err(ConfigError::NoAvailablePort { first: start_port as u32, last: if end == 0 {
        0
    } else {
        end - 1
    } })
}

/// The error of a server whose port is taken, with no free port behind it.
pub open spec fn fallback_failure(port: u16) -> ConfigErrorView {
    ConfigErrorView::ServerPortUnavailable {
        first: (port + 1) as u32,
        last: (port + PORT_SEARCH_ATTEMPTS) as u32,
    }
}

/// Whether `probe` gave `free` as its answer for `port` on the host named
/// `host`.
pub open spec fn probe_answered<F: Fn(&str, u16) -> bool>(
    probe: F,
    host: Seq<char>,
    port: u16,
    free: bool,
) -> bool {
    exists|name: &str| #[trigger] name@ == host && call_ensures(probe, (name, port), free)
}

/// Settles the address the server listens on, as `host:port`. The
/// configured port is taken if `probe` reports it free; otherwise the first
/// free one of the hundred ports behind it, which then replaces the
/// configured port.
pub fn get_available_server_addr<F: Fn(&str, u16) -> bool>(config: &mut AppConfig, probe: F) -> (addr:
    Result<String, ConfigError>)
    requires
        forall|host: &str, port: u16| call_requires(probe, (host, port)),
    ensures
        final(config).oauth == old(config).oauth,
        final(config).server.host == old(config).server.host,
        final(config).server.log_level == old(config).server.log_level,
        match addr {
            Ok(text) => {
                let port = final(config).server.port;
                &&& text@ == address_text(old(config).server.host@, port)
                &&& old(config).server.port <= port < search_end(
                    old(config).server.port,
                    (PORT_SEARCH_ATTEMPTS + 1) as u16,
                )
                &&& probe_answered(probe, old(config).server.host@, port, true)
                &&& forall|earlier: u16|
                    old(config).server.port <= earlier < port ==> probe_answered(
                        probe,
                        old(config).server.host@,
                        earlier,
                        false,
                    )
            },
            Err(error) => {
                &&& final(config).server.port == old(config).server.port
                &&& error@ == fallback_failure(old(config).server.port)
                &&& forall|port: u16|
                    old(config).server.port <= port < search_end(
                        old(config).server.port,
                        (PORT_SEARCH_ATTEMPTS + 1) as u16,
                    ) ==> probe_answered(probe, old(config).server.host@, port, false)
            },
        },
{
    let configured = config.server.port;
    let host = config.server.host.as_str();
    if probe(host, configured) {
        return Ok(config.server_addr());
    }
    let first: u32 = configured as u32 + 1;
    let last: u32 = configured as u32 + PORT_SEARCH_ATTEMPTS as u32;
    if configured == u16::MAX {
        return Err(ConfigError::ServerPortUnavailable { first, last });
    }
    match find_available_port(host, configured + 1, PORT_SEARCH_ATTEMPTS, probe) {
        Ok(port) => {
            config.server.port = port;
            Ok(config.server_addr())
        },
        Err(_) => Err(ConfigError::ServerPortUnavailable { first, last }),
    }
}

/// The text that says that no port from `first` to `last` is free.
pub open spec fn port_range_message(first: u32, last: u32) -> Seq<char> {
    "在端口范围 "@ + numeral(first as nat) + "-"@ + numeral(last as nat) + " 内未找到可用端口"@
}

impl ConfigErrorView {
    /// The text that tells a person what went wrong.
    pub open spec fn message(self) -> Seq<char> {
        match self {
            ConfigErrorView::InvalidPort { value, reason } => "无效的端口号 '"@ + value + "': "@
                + reason.message_text(),
            ConfigErrorView::InvalidExpireMinutes { value, reason } => "无效的过期时间 '"@ + value
                + "': "@ + reason.message_text(),
            ConfigErrorView::NoAvailablePort { first, last } => port_range_message(first, last),
            ConfigErrorView::ServerPortUnavailable { first, last } => "无法找到可用端口: "@
                + port_range_message(first, last),
        }
    }
}

fn invalid_setting_text(label: &str, value: &str, reason: NumberError) -> (text: String)
    ensures
        text@ == label@ + value@ + "': "@ + reason.message_text(),
{
    let mut text = label.to_string();
    text.append(value);
    text.append("': ");
    text.append(reason.message());
    text
}

fn port_range_text(prefix: &str, first: u32, last: u32) -> (text: String)
    ensures
        text@ == prefix@ + port_range_message(first, last),
{
    let mut text = prefix.to_string();
    text.append("在端口范围 ");
    push_decimal(&mut text, first as u64);
    text.append("-");
    push_decimal(&mut text, last as u64);
    text.append(" 内未找到可用端口");
    assert(text@ =~= prefix@ + port_range_message(first, last));
    text
}

impl ConfigError {
    pub fn message(&self) -> (text: String)
        ensures
            text@ == self@.message(),
    {
        match self {
            ConfigError::InvalidPort { value, reason } => invalid_setting_text(
                "无效的端口号 '",
                value.as_str(),
                *reason,
            ),
            ConfigError::InvalidExpireMinutes { value, reason } => invalid_setting_text(
                "无效的过期时间 '",
                value.as_str(),
                *reason,
            ),
            ConfigError::NoAvailablePort { first, last } => {
                let text = port_range_text("", *first, *last);
                proof {
                    reveal_strlit("");
                    assert(""@ + port_range_message(*first, *last) =~= port_range_message(
                        *first,
                        *last,
                    ));
                }
                text
            },
            ConfigError::ServerPortUnavailable { first, last } => {
                port_range_text("无法找到可用端口: ", *first, *last)
            },
        }
    }
}

} // verus!
