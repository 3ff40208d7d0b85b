use vstd::prelude::*;
use crate::config::Config;
use crate::log::Log;
use crate::motors::{MotorBank, MotorID, clamp_power};
use crate::sensors::{Axes, SensorSnapshot};
use crate::text::{bool_text, dec_text, int_text, push_bool, push_decimal, push_signed};

verus! {

/// Tag of the messages that the control loop logs.
pub const CORE_TAG: &'static str = "fccore";

/// The safety switch's reading: the live input when the switch is used,
/// else the configured stand-in value.
pub open spec fn switch_reading(config: Config, live: bool) -> bool {
    if config.arm_switch.use_switch {
        live
    } else {
        config.arm_switch.disabled_return_value
    }
}

/// Message logged when a cycle had no fresh sensor readings.
pub const SENSOR_FAILURE_MESSAGE: &'static str = "sensor read failed";

/// `(x, y, z)` of one reading.
pub open spec fn axes_text(a: Axes) -> Seq<char> {
    "("@ + int_text(a.x as int) + ", "@ + int_text(a.y as int) + ", "@ + int_text(a.z as int) + ")"@
}

/// The power of each motor, one per line.
pub open spec fn motor_text(m: MotorBank) -> Seq<char> {
    "MOTOR FL: "@ + dec_text(m.power(MotorID::FrontLeft) as nat) + "<br/>MOTOR FR: "@
        + dec_text(m.power(MotorID::FrontRight) as nat) + "<br/>MOTOR BL: "@
        + dec_text(m.power(MotorID::BackLeft) as nat) + "<br/>MOTOR BR: "@
        + dec_text(m.power(MotorID::BackRight) as nat) + "<br/>"@
}

/// The status page of a core: alive flag, sensors, motors and arm state, all
/// read from the one state `c`.
pub open spec fn status_text(c: FCCore) -> Seq<char> {
    "<html><head><title>Status</title><body><b>STATUS PAGE</b><br/>ALIVE: "@ + bool_text(c.alive)
        + "<br/>ACC: "@ + axes_text(c.sensors.acc) + "<br/>GYR: "@ + axes_text(c.sensors.gyro)
        + "<br/>"@ + motor_text(c.motors) + "ARM_SAFETY: "@ + bool_text(c.spec_armed_switch())
        + "<br/>ARM_COMMAND: "@ + bool_text(c.armed_command) + "<br/>FULLY ARMED: "@
        + bool_text(c.spec_armed()) + "<br/></body></html>"@
}

fn push_axes(s: &mut String, a: Axes)
    ensures
        final(s)@ == old(s)@ + axes_text(a),
{
    s.append("(");
    push_signed(s, a.x);
    s.append(", ");
    push_signed(s, a.y);
    s.append(", ");
    push_signed(s, a.z);
    s.append(")");
}

fn push_motors(s: &mut String, m: &MotorBank)
    ensures
        final(s)@ == old(s)@ + motor_text(*m),
{
    s.append("MOTOR FL: ");
    push_decimal(s, m.motor(MotorID::FrontLeft).current_power() as u64);
    s.append("<br/>MOTOR FR: ");
    push_decimal(s, m.motor(MotorID::FrontRight).current_power() as u64);
    s.append("<br/>MOTOR BL: ");
    push_decimal(s, m.motor(MotorID::BackLeft).current_power() as u64);
    s.append("<br/>MOTOR BR: ");
    push_decimal(s, m.motor(MotorID::BackRight).current_power() as u64);
    s.append("<br/>");
}

/// Power levels that a controller asks of the four motors for one cycle.
#[derive(Clone, Copy, Debug, PartialEq, Eq, Structural)]
pub struct MotorTargets {
    pub front_left: u64,
    pub front_right: u64,
    pub back_left: u64,
    pub back_right: u64,
}

impl MotorTargets {
    pub open spec fn of(&self, id: MotorID) -> u64 {
        match id {
            MotorID::FrontLeft => self.front_left,
            MotorID::FrontRight => self.front_right,
            MotorID::BackLeft => self.back_left,
            MotorID::BackRight => self.back_right,
        }
    }
}

/// The flight core: configuration, log, motors, sensors, the commanded arm
/// flag, the latest safety-switch input and the alive flag.
pub struct FCCore {
    pub config: Config,
    pub log: Log,
    pub motors: MotorBank,
    pub sensors: SensorSnapshot,
    pub armed_command: bool,
    pub switch_input: bool,
    pub alive: bool,
}

impl FCCore {
    pub open spec fn wf(&self) -> bool {
        self.config.wf() && self.log.wf() && self.motors.wf()
    }

    pub open spec fn spec_armed_switch(&self) -> bool {
        switch_reading(self.config, self.switch_input)
    }

    /// Armed iff the switch agrees and arming was commanded.
    pub open spec fn spec_armed(&self) -> bool {
        self.spec_armed_switch() && self.armed_command
    }

    /// A live core with motors stopped, not commanded to arm, and an empty log.
    pub fn new(config: Config) -> (r: FCCore)
        requires
            config.wf(),
        ensures
            r.wf(),
            r.config == config,
            r.alive,
            !r.armed_command,
            !r.switch_input,
            r.motors.all_stopped(),
            r.log.spec_entries().len() == 0,
            r.sensors == SensorSnapshot::spec_zero(),
    {
        FCCore {
            config,
            log: Log::new(),
            motors: MotorBank::new(),
            sensors: SensorSnapshot::new(),
            armed_command: false,
            switch_input: false,
            alive: true,
        }
    }

    pub fn config(&self) -> (r: &Config)
        ensures
            *r == self.config,
    {
        &self.config
    }

    pub fn log(&self) -> (r: &Log)
        ensures
            *r == self.log,
    {
        &self.log
    }

    pub fn motors(&self) -> (r: &MotorBank)
        ensures
            *r == self.motors,
    {
        &self.motors
    }

    pub fn sensors(&self) -> (r: &SensorSnapshot)
        ensures
            *r == self.sensors,
    {
        &self.sensors
    }

    /// The safety switch's reading.
    pub fn armed_switch(&self) -> (r: bool)
        ensures
            r == self.spec_armed_switch(),
    {
        if self.config.arm_switch.use_switch {
            self.switch_input
        } else {
            self.config.arm_switch.disabled_return_value
        }
    }

    /// The commanded arm flag.
    pub fn armed_cmd(&self) -> (r: bool)
        ensures
            r == self.armed_command,
    {
        self.armed_command
    }

    /// Whether the vehicle is armed.
    pub fn armed(&self) -> (r: bool)
        ensures
            r == self.spec_armed(),
            r == ((if self.config.arm_switch.use_switch {
                self.switch_input
            } else {
                self.config.arm_switch.disabled_return_value
            }) && self.armed_command),
    {
        self.armed_switch() && self.armed_command
    }

    /// This state with the commanded arm flag set to `value`.
    pub open spec fn with_armed_command(self, value: bool) -> FCCore {
        FCCore { armed_command: value, ..self }
    }

    /// Sets the commanded arm flag; nothing else changes.
    pub fn set_armed_command(&mut self, value: bool)
        ensures
            *final(self) == old(self).with_armed_command(value),
    {
        self.armed_command = value;
    }

    /// Setting the commanded arm flag twice to the same value leaves the same
    /// state as setting it once.
    pub proof fn lemma_set_armed_command_idempotent(c: FCCore, value: bool)
        ensures
            c.with_armed_command(value).with_armed_command(value) == c.with_armed_command(value),
    {
    }

    /// Records the latest reading of the safety-switch input.
    pub fn set_switch_input(&mut self, value: bool)
        ensures
            *final(self) == (FCCore { switch_input: value, ..*old(self) }),
    {
        self.switch_input = value;
    }

    /// Sets motor `id` to `value` clamped into `[0, 100]`.
    pub fn set_motor_power(&mut self, id: MotorID, value: u64)
        requires
            old(self).wf(),
        ensures
            final(self).wf(),
            final(self).motors.power(id) == clamp_power(value as int),
            forall|o: MotorID| o != id ==> #[trigger] final(self).motors.spec_motor(o) == old(self).motors.spec_motor(o),
            final(self).config == old(self).config,
            final(self).log == old(self).log,
            final(self).sensors == old(self).sensors,
            final(self).armed_command == old(self).armed_command,
            final(self).switch_input == old(self).switch_input,
            final(self).alive == old(self).alive,
    {
        self.motors.set_power(id, value);
    }

    /// Renders the status page from this one state.
    pub fn status_report(&self) -> (r: String)
        ensures
            r@ == status_text(*self),
    {
        let mut s = String::new();
        s.append("<html><head><title>Status</title><body><b>STATUS PAGE</b><br/>ALIVE: ");
        push_bool(&mut s, self.alive);
        s.append("<br/>ACC: ");
        push_axes(&mut s, self.sensors.acc);
        s.append("<br/>GYR: ");
        push_axes(&mut s, self.sensors.gyro);
        s.append("<br/>");
        push_motors(&mut s, &self.motors);
        s.append("ARM_SAFETY: ");
        push_bool(&mut s, self.armed_switch());
        s.append("<br/>ARM_COMMAND: ");
        push_bool(&mut s, self.armed_command);
        s.append("<br/>FULLY ARMED: ");
        push_bool(&mut s, self.armed());
        s.append("<br/></body></html>");
        s
    }

    /// One cycle of the control loop, run while holding the core. When the
    /// core is no longer alive nothing changes and the loop is told to stop.
    /// Otherwise the fresh switch input is recorded; fresh sensor readings
    /// replace the snapshot, and missing ones keep it and are logged; the
    /// motors get the clamped targets when the vehicle is armed and the
    /// readings are fresh, and are stopped in every other case.
    pub fn fccore_thread_loop(
        core: &mut FCCore,
        reading: Option<SensorSnapshot>,
        switch_input: bool,
        targets: MotorTargets,
    ) -> (running: bool)
        requires
            old(core).wf(),
        ensures
            final(core).wf(),
            running == old(core).alive,
            !old(core).alive ==> *final(core) == *old(core),
            old(core).alive ==> {
                &&& final(core).config == old(core).config
                &&& final(core).armed_command == old(core).armed_command
                &&& final(core).alive
                &&& final(core).switch_input == switch_input
                &&& final(core).sensors == match reading {
                    Some(s) => s,
                    None => old(core).sensors,
                }
                &&& reading is Some ==> final(core).log == old(core).log
                &&& reading is None ==> Log::appended(
                    old(core).log,
                    final(core).log,
                    CORE_TAG@,
                    SENSOR_FAILURE_MESSAGE@,
                )
                &&& (final(core).spec_armed() && reading is Some) ==> forall|id: MotorID|
                    #[trigger] final(core).motors.power(id) == clamp_power(targets.of(id) as int)
                &&& (!final(core).spec_armed() || reading is None) ==> final(core).motors.all_stopped()
            },
    {
        if !core.alive {
            return false;
        }
        core.set_switch_input(switch_input);
        let fresh = match reading {
            Some(s) => {
                core.sensors.replace(s.acc, s.gyro);
                true
            },
            None => {
                core.log.add(CORE_TAG, SENSOR_FAILURE_MESSAGE);
                false
            },
        };
        if fresh && core.armed() {
            core.motors.set_power(MotorID::FrontLeft, targets.front_left);
            core.motors.set_power(MotorID::FrontRight, targets.front_right);
            core.motors.set_power(MotorID::BackLeft, targets.back_left);
            core.motors.set_power(MotorID::BackRight, targets.back_right);
            proof {
                assert forall|id: MotorID| #[trigger] core.motors.power(id) == clamp_power(targets.of(id) as int) by {
                    match id {
                        MotorID::FrontLeft => {},
                        MotorID::FrontRight => {},
                        MotorID::BackLeft => {},
                        MotorID::BackRight => {},
                    }
                }
            }
        } else {
            core.motors.stop_all();
        }
        true
    }
}

} // verus!
