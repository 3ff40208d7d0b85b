use vstd::prelude::*;
use crate::config::Config;

verus! {

/// The flat form of the configuration: the web server's port and the two
/// hardware pins, without the switch policy.
#[derive(Clone, Copy, Debug, PartialEq, Eq, Structural)]
pub struct FCConfig {
    pub fc_serve_port: usize,
    pub status_pin: usize,
    pub arm_switch_pin: usize,
}

impl FCConfig {
    /// The flat form of a loaded configuration.
    pub fn new(config: &Config) -> (r: FCConfig)
        ensures
            r.fc_serve_port == config.fc_webserve_port,
            r.status_pin == config.status_pin,
            r.arm_switch_pin == config.arm_switch.pin,
    {
        FCConfig {
            fc_serve_port: config.fc_webserve_port,
            status_pin: config.status_pin,
            arm_switch_pin: config.arm_switch.pin,
        }
    }
}

} // verus!
