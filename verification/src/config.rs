//! What the gateway is configured with.

use vstd::prelude::*;
use vstd::string::*;

verus! {

/// One pattern as it is configured.
#[derive(Debug, Clone, PartialEq, Eq)]
pub struct PatternConfig {
    /// The name under which the pattern is registered.
    pub name: String,
    /// Where the backend's binary is.
    pub binary_path: std::path::PathBuf,
    /// The pattern's own configuration.
    pub config: serde_json::Value,
}

/// The gateway's configuration.
#[derive(Debug, Clone, PartialEq, Eq)]
pub struct ProxyConfig {
    /// The address that the listener binds.
    pub listen_address: String,
    /// The patterns to register.
    pub patterns: Vec<PatternConfig>,
}

impl Default for ProxyConfig {
    /// All interfaces on port 8980, and no patterns.
    fn default() -> (config: Self)
        ensures
            config.listen_address@ == "0.0.0.0:8980"@,
            config.patterns@.len() == 0,
    {
        ProxyConfig { listen_address: String::from_str("0.0.0.0:8980"), patterns: Vec::new() }
    }
}

} // verus!
