//! Static configuration, as it is loaded at start.
use vstd::prelude::*;

verus! {

/// Where the vehicle service is reached.
#[derive(Debug, Clone, PartialEq, Eq)]
pub struct ApiConfig {
    /// Root of the authorization endpoints.
    pub auth_root: String,
    /// Root of the owner endpoints.
    pub api_root: String,
    /// Address of the telemetry stream.
    pub stream_path: String,
}

/// Configuration of the monitor.
#[derive(Debug, Clone, PartialEq, Eq)]
pub struct AppConfig {
    pub api_config: Option<ApiConfig>,
    pub http_port: i32,
    pub https_port: i32,
    /// Address of the remote store.
    pub pika_address: String,
}

/// Configuration of a monitor that serves over TLS as well.
#[derive(Debug, Clone, PartialEq, Eq)]
pub struct Config {
    pub client_config: ApiConfig,
    pub http_port: u16,
    pub https_port: u16,
}

} // verus!
