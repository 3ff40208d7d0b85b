//! State-holding core of a multi-rotor flight controller: configuration, arm
//! state, motor bank, sensor snapshot and log, with the decisions of the
//! control loop and of the command surface stated and proved.

mod commands;
mod config;
mod fcconfig;
mod fccore;
mod log;
mod motors;
mod sensors;
pub mod text;

pub use config::{Config, ConfigError, Switch, MAX_PORT};
pub use fcconfig::FCConfig;
pub use log::{Log, LogEntry, LOG_CAPACITY};
pub use motors::{Motor, MotorBank, MotorID, MAX_POWER};
pub use sensors::{Axes, SensorSnapshot};
pub use fccore::{FCCore, MotorTargets, CORE_TAG, SENSOR_FAILURE_MESSAGE};
pub use commands::{Command, Reply, TAG, MOTOR_TEST_STEPS, parse_command, render_path};
