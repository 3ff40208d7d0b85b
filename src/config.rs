use vstd::prelude::*;

verus! {

/// Highest network port number.
pub const MAX_PORT: usize = 65535;

/// A physical safety switch. When `use_switch` is false the switch is not
/// consulted and `disabled_return_value` stands for its reading.
#[derive(Clone, Copy, Debug, PartialEq, Eq, Structural)]
pub struct Switch {
    pub use_switch: bool,
    pub disabled_return_value: bool,
    pub pin: usize,
}

/// Vehicle configuration, read once at start-up.
#[derive(Clone, Copy, Debug, PartialEq, Eq, Structural)]
pub struct Config {
    pub fc_webserve_enabled: bool,
    pub fc_webserve_port: usize,
    pub status_pin: usize,
    pub arm_switch: Switch,
}

/// Why a configuration could not be had.
#[derive(Clone, Copy, Debug, PartialEq, Eq, Structural)]
pub enum ConfigError {
    /// The file could not be opened or read.
    ConfigReadError,
    /// The contents do not describe a valid configuration.
    ConfigDecodeError,
}

impl Config {
    /// A served status page needs a port in `1..=65535`.
    pub open spec fn wf(&self) -> bool {
        self.fc_webserve_enabled ==> 1 <= self.fc_webserve_port <= MAX_PORT
    }

    pub fn is_valid(&self) -> (r: bool)
        ensures
            r == self.wf(),
    {
        !self.fc_webserve_enabled || (1 <= self.fc_webserve_port && self.fc_webserve_port <= MAX_PORT)
    }

    /// Accepts a decoded configuration, or refuses it when it breaks the
    /// port rule.
    pub fn checked(self) -> (r: Result<Config, ConfigError>)
        ensures
            self.wf() ==> r == Ok::<Config, ConfigError>(self),
            !self.wf() ==> r == Err::<Config, ConfigError>(ConfigError::ConfigDecodeError),
    {
        if self.is_valid() {
            Ok(self)
        } else {
            Err(ConfigError::ConfigDecodeError)
        }
    }
}

} // verus!
