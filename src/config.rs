use vstd::prelude::*;
use vstd::string::*;

verus! {

/// Settings fixed at startup for the life of the process.
#[derive(Clone, Debug)]
pub struct Config {
    pub node_name: String,
    pub api_host: String,
    pub token: String,
    pub interval_seconds: u64,
}

/// Why a configuration was refused.
#[derive(Clone, Copy, Debug, PartialEq, Eq, Structural)]
pub enum ConfigError {
    EmptyNodeName,
    EmptyApiHost,
    EmptyToken,
    ZeroInterval,
}

/// The error that a configuration with these values gets, checked in this
/// order: node name, host, token, interval.
pub open spec fn config_error(
    node_name: Seq<char>,
    api_host: Seq<char>,
    token: Seq<char>,
    interval_seconds: u64,
) -> Option<ConfigError> {
    if node_name.len() == 0 {
        Some(ConfigError::EmptyNodeName)
    } else if api_host.len() == 0 {
        Some(ConfigError::EmptyApiHost)
    } else if token.len() == 0 {
        Some(ConfigError::EmptyToken)
    } else if interval_seconds == 0 {
        Some(ConfigError::ZeroInterval)
    } else {
        None
    }
}

impl Config {
    /// Every required value is present and the interval is at least one second.
    pub open spec fn wf(&self) -> bool {
        config_error(self.node_name@, self.api_host@, self.token@, self.interval_seconds).is_none()
    }

    /// Checks the settings before any cycle runs; the first missing value,
    /// or an interval of zero, is refused.
    pub fn new(node_name: String, api_host: String, token: String, interval_seconds: u64) -> (r:
        Result<Config, ConfigError>)
        ensures
            match config_error(node_name@, api_host@, token@, interval_seconds) {
                Some(e) => r == Err::<Config, ConfigError>(e),
                None => r is Ok && r->Ok_0.wf() && r->Ok_0.node_name@ == node_name@
                    && r->Ok_0.api_host@ == api_host@ && r->Ok_0.token@ == token@
                    && r->Ok_0.interval_seconds == interval_seconds,
            },
    {
        if node_name.as_str().is_empty() {
            Err(ConfigError::EmptyNodeName)
        } else if api_host.as_str().is_empty() {
            Err(ConfigError::EmptyApiHost)
        } else if token.as_str().is_empty() {
            Err(ConfigError::EmptyToken)
        } else if interval_seconds == 0 {
            Err(ConfigError::ZeroInterval)
        } else {
            Ok(Config { node_name, api_host, token, interval_seconds })
        }
    }

    /// The address that reports are posted to: the host followed by `/submit`.
    pub fn submit_url(&self) -> (r: String)
        ensures
            r@ == self.api_host@ + "/submit"@,
    {
        self.api_host.clone().concat("/submit")
    }
}

} // verus!
