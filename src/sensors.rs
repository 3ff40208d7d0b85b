use vstd::prelude::*;

verus! {

/// A reading on three axes, in the sensor's raw units.
#[derive(Clone, Copy, Debug, PartialEq, Eq, Structural)]
pub struct Axes {
    pub x: i32,
    pub y: i32,
    pub z: i32,
}

/// Latest accelerometer and gyroscope readings, replaced as a whole each
/// control cycle.
#[derive(Clone, Copy, Debug, PartialEq, Eq, Structural)]
pub struct SensorSnapshot {
    pub acc: Axes,
    pub gyro: Axes,
}

impl SensorSnapshot {
    pub open spec fn spec_zero() -> SensorSnapshot {
        SensorSnapshot { acc: Axes { x: 0, y: 0, z: 0 }, gyro: Axes { x: 0, y: 0, z: 0 } }
    }

    /// All readings at zero.
    pub fn new() -> (r: SensorSnapshot)
        ensures
            r == SensorSnapshot::spec_zero(),
    {
        SensorSnapshot { acc: Axes { x: 0, y: 0, z: 0 }, gyro: Axes { x: 0, y: 0, z: 0 } }
    }

    /// Replaces both readings at once.
    pub fn replace(&mut self, acc: Axes, gyro: Axes)
        ensures
            final(self).acc == acc,
            final(self).gyro == gyro,
    {
        *self = SensorSnapshot { acc, gyro };
    }

    /// Both readings of the latest replacement.
    pub fn read(&self) -> (r: (Axes, Axes))
        ensures
            r == (self.acc, self.gyro),
    {
        (self.acc, self.gyro)
    }
}

} // verus!
