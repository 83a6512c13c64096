//! Deployment configuration of the service, as plain data. Reading and
//! deserialising the configuration file happens at the boundary.

use vstd::prelude::*;
use vstd::string::StringExecFns;

verus! {

/// Which upstream price provider the service pulls from.
#[derive(Debug, Clone, Copy, PartialEq, Eq, Structural)]
pub enum PriceProvider {
    CryptoWatch,
    Yahoo,
}

/// Logging settings.
#[derive(Debug, Clone)]
pub struct Log {
    pub level: String,
    pub file: Option<String>,
    pub enable_stdout: bool,
}

/// The log level used when the configuration names none.
pub fn default_log_level() -> (r: String)
    ensures
        r@ == "info"@,
{
    String::from_str("info")
}

/// Whether logging to stdout is on when the configuration does not say.
pub fn default_enable_stdout() -> (r: bool)
    ensures
        !r,
{
    false
}

/// Upstream provider settings.
#[derive(Debug, Clone)]
pub struct Providers {
    pub price_provider: PriceProvider,
    pub cw_api_key: String,
    pub ip_api_key: String,
}

/// Application-level settings.
#[derive(Debug, Clone)]
pub struct Application {
    pub log: Log,
    pub providers: Providers,
}

/// Address of the external cache store.
#[derive(Debug, Clone)]
pub struct Redis {
    pub hostname: String,
    pub port: u32,
}

/// Address the HTTP server binds to.
#[derive(Debug, Clone)]
pub struct Web {
    pub hostname: String,
    pub port: u32,
}

/// Address the metrics endpoint binds to.
#[derive(Debug, Clone)]
pub struct Metrics {
    pub hostname: String,
    pub port: u32,
}

/// Server-level settings.
#[derive(Debug, Clone)]
pub struct Server {
    pub web: Web,
    pub redis: Redis,
    pub metrics: Metrics,
}

/// The whole service configuration.
#[derive(Debug, Clone)]
pub struct Config {
    pub app: Application,
    pub server: Server,
}

} // verus!
