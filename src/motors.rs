use vstd::prelude::*;

verus! {

/// Largest power level a motor can be commanded to.
pub const MAX_POWER: u8 = 100;

/// The four motor positions of the vehicle.
#[derive(Clone, Copy, Debug, PartialEq, Eq, Structural)]
pub enum MotorID {
    FrontLeft,
    FrontRight,
    BackLeft,
    BackRight,
}

/// `value` clamped into `[0, 100]`.
pub open spec fn clamp_power(value: int) -> int {
    if value < 0 {
        0
    } else if value > MAX_POWER as int {
        MAX_POWER as int
    } else {
        value
    }
}

/// One motor and the power level it is currently commanded to.
#[derive(Clone, Copy, Debug, PartialEq, Eq, Structural)]
pub struct Motor {
    pub id: MotorID,
    pub power: u8,
}

impl Motor {
    pub open spec fn wf(&self) -> bool {
        self.power <= MAX_POWER
    }

    pub fn current_power(&self) -> (r: u8)
        ensures
            r == self.power,
    {
        self.power
    }
}

/// One motor per position, each addressed on its own.
#[derive(Clone, Copy, Debug, PartialEq, Eq, Structural)]
pub struct MotorBank {
    front_left: Motor,
    front_right: Motor,
    back_left: Motor,
    back_right: Motor,
}

impl MotorBank {
    /// The motor at position `id`.
    pub closed spec fn spec_motor(&self, id: MotorID) -> Motor {
        match id {
            MotorID::FrontLeft => self.front_left,
            MotorID::FrontRight => self.front_right,
            MotorID::BackLeft => self.back_left,
            MotorID::BackRight => self.back_right,
        }
    }

    /// The power level of motor `id`.
    pub open spec fn power(&self, id: MotorID) -> int {
        self.spec_motor(id).power as int
    }

    /// Each motor sits at its own position and within the power range.
    pub open spec fn wf(&self) -> bool {
        forall|id: MotorID| #[trigger] self.spec_motor(id).id == id && self.spec_motor(id).wf()
    }

    /// Every motor at power 0.
    pub open spec fn all_stopped(&self) -> bool {
        forall|id: MotorID| #[trigger] self.power(id) == 0
    }

    /// All four motors, stopped.
    pub fn new() -> (r: MotorBank)
        ensures
            r.wf(),
            r.all_stopped(),
    {
        MotorBank {
            front_left: Motor { id: MotorID::FrontLeft, power: 0 },
            front_right: Motor { id: MotorID::FrontRight, power: 0 },
            back_left: Motor { id: MotorID::BackLeft, power: 0 },
            back_right: Motor { id: MotorID::BackRight, power: 0 },
        }
    }

    pub fn motor(&self, id: MotorID) -> (r: &Motor)
        ensures
            *r == self.spec_motor(id),
    {
        match id {
            MotorID::FrontLeft => &self.front_left,
            MotorID::FrontRight => &self.front_right,
            MotorID::BackLeft => &self.back_left,
            MotorID::BackRight => &self.back_right,
        }
    }

    /// Sets motor `id` to `value` clamped into `[0, 100]`; the other motors
    /// keep their power.
    pub fn set_power(&mut self, id: MotorID, value: u64)
        requires
            old(self).wf(),
        ensures
            final(self).wf(),
            final(self).power(id) == clamp_power(value as int),
            forall|o: MotorID| o != id ==> #[trigger] final(self).spec_motor(o) == old(self).spec_motor(o),
    {
        let p: u8 = if value > MAX_POWER as u64 {
            MAX_POWER
        } else {
            value as u8
        };
        let m = Motor { id, power: p };
        match id {
            MotorID::FrontLeft => self.front_left = m,
            MotorID::FrontRight => self.front_right = m,
            MotorID::BackLeft => self.back_left = m,
            MotorID::BackRight => self.back_right = m,
        }
        proof {
            assert forall|o: MotorID| #[trigger] self.spec_motor(o).id == o && self.spec_motor(o).wf() by {
                assert(old(self).spec_motor(o).id == o && old(self).spec_motor(o).wf());
            }
        }
    }

    /// Stops every motor.
    pub fn stop_all(&mut self)
        requires
            old(self).wf(),
        ensures
            final(self).wf(),
            final(self).all_stopped(),
    {
        self.set_power(MotorID::FrontLeft, 0);
        self.set_power(MotorID::FrontRight, 0);
        self.set_power(MotorID::BackLeft, 0);
        self.set_power(MotorID::BackRight, 0);
    }
}

} // verus!
