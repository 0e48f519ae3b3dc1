use vstd::prelude::*;

verus! {

/// The log level a configuration starts with.
pub fn default_log_level() -> (r: String)
    ensures
        r@ == "info"@,
{
    String::from_str("info")
}

/// The transport a server entry uses when none is named.
pub fn default_transport() -> (r: String)
    ensures
        r@ == "http2"@,
{
    String::from_str("http2")
}

pub fn default_true() -> (r: bool)
    ensures
        r,
{
    true
}

/// How the router spreads requests when nothing is configured.
pub fn default_load_balancing() -> (r: String)
    ensures
        r@ == "round_robin"@,
{
    String::from_str("round_robin")
}

pub fn default_theme() -> (r: String)
    ensures
        r@ == "dark"@,
{
    String::from_str("dark")
}

/// Milliseconds between two refreshes of the interface.
pub fn default_refresh_rate() -> (r: u64)
    ensures
        r == 1000,
{
    1000
}

/// General settings.
#[derive(Debug, Clone)]
pub struct GeneralConfig {
    pub log_level: String,
    pub data_dir: Option<String>,
    pub silent_mode: bool,
}

impl GeneralConfig {
    pub fn default() -> (r: GeneralConfig)
        ensures
            r.log_level@ == "info"@,
            r.data_dir is None,
            !r.silent_mode,
    {
        GeneralConfig { log_level: default_log_level(), data_dir: None, silent_mode: false }
    }
}

/// TLS settings of a server entry.
#[derive(Debug, Clone)]
pub struct TlsConfig {
    pub enabled: bool,
    pub verify: bool,
    pub client_cert: Option<String>,
    pub client_key: Option<String>,
    pub server_name: Option<String>,
}

impl TlsConfig {
    /// TLS off; when turned on, the server is verified.
    pub fn default() -> (r: TlsConfig)
        ensures
            !r.enabled,
            r.verify,
            r.client_cert is None,
            r.client_key is None,
            r.server_name is None,
    {
        TlsConfig {
            enabled: false,
            verify: default_true(),
            client_cert: None,
            client_key: None,
            server_name: None,
        }
    }
}

/// Authentication settings of a server entry.
#[derive(Debug, Clone)]
pub struct AuthConfig {
    pub auth_type: String,
    pub token: String,
}

impl AuthConfig {
    pub fn default() -> (r: AuthConfig)
        ensures
            r.auth_type@ == "none"@,
            r.token@ == ""@,
    {
        AuthConfig { auth_type: String::from_str("none"), token: String::from_str("") }
    }
}

/// A server the daemon knows.
#[derive(Debug, Clone)]
pub struct ServerConfig {
    pub name: String,
    pub url: String,
    pub transport: String,
    pub tls: TlsConfig,
    pub auth: AuthConfig,
}

impl ServerConfig {
    /// An entry with the default transport, TLS and authentication settings.
    pub fn new(name: String, url: String) -> (r: ServerConfig)
        ensures
            r.name == name,
            r.url == url,
            r.transport@ == "http2"@,
            !r.tls.enabled && r.tls.verify,
            r.auth.auth_type@ == "none"@,
    {
        ServerConfig {
            name,
            url,
            transport: default_transport(),
            tls: TlsConfig::default(),
            auth: AuthConfig::default(),
        }
    }
}

/// A client the daemon knows, with the servers it may reach.
#[derive(Debug, Clone)]
pub struct ClientConfig {
    pub id: String,
    pub name: String,
    pub allowed_servers: Vec<String>,
}

/// Routing settings.
#[derive(Debug, Clone)]
pub struct RouterConfig {
    pub default_route: Option<String>,
    pub load_balancing: String,
}

impl RouterConfig {
    pub fn default() -> (r: RouterConfig)
        ensures
            r.default_route is None,
            r.load_balancing@ == "round_robin"@,
    {
        RouterConfig { default_route: None, load_balancing: default_load_balancing() }
    }
}

/// Interface settings.
#[derive(Debug, Clone)]
pub struct UiConfig {
    pub theme: String,
    pub refresh_rate: u64,
}

impl UiConfig {
    pub fn default() -> (r: UiConfig)
        ensures
            r.theme@ == "dark"@,
            r.refresh_rate == 1000,
    {
        UiConfig { theme: default_theme(), refresh_rate: default_refresh_rate() }
    }
}

/// The daemon's whole configuration.
#[derive(Debug, Clone)]
pub struct Config {
    pub general: GeneralConfig,
    pub servers: Vec<ServerConfig>,
    pub clients: Vec<ClientConfig>,
    pub router: RouterConfig,
    pub ui: UiConfig,
}

impl Config {
    /// Every section at its default, no servers and no clients.
    pub fn default() -> (r: Config)
        ensures
            r.general.log_level@ == "info"@,
            r.servers@.len() == 0,
            r.clients@.len() == 0,
            r.router.load_balancing@ == "round_robin"@,
            r.ui.theme@ == "dark"@,
            r.ui.refresh_rate == 1000,
    {
        Config {
            general: GeneralConfig::default(),
            servers: Vec::new(),
            clients: Vec::new(),
            router: RouterConfig::default(),
            ui: UiConfig::default(),
        }
    }
}

} // verus!
