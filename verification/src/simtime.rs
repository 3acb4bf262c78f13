//! Values for working with time in simulation units.
//!
//! Simulation time advances in integer units; one unit is one
//! nanosecond. The constants carry the unit conversions.

use vstd::prelude::*;

verus! {

/// Invalid simulation time.
pub const SIMTIME_INVALID: u64 = u64::MAX;

/// Maximum and minimum valid values.
pub const SIMTIME_MAX: u64 = u64::MAX - 1;

pub const SIMTIME_MIN: u64 = 0;

/// Represents one nanosecond in simulation time.
pub const SIMTIME_ONE_NANOSECOND: u64 = 1;

/// Represents one microsecond in simulation time.
pub const SIMTIME_ONE_MICROSECOND: u64 = 1000;

/// Represents one millisecond in simulation time.
pub const SIMTIME_ONE_MILLISECOND: u64 = 1000000;

/// Represents one second in simulation time.
pub const SIMTIME_ONE_SECOND: u64 = 1000000000;

/// Represents one minute in simulation time.
pub const SIMTIME_ONE_MINUTE: u64 = 60000000000;

/// Represents one hour in simulation time.
pub const SIMTIME_ONE_HOUR: u64 = 3600000000000;

/// A point in simulated time, held as nanoseconds since the start of
/// the simulation.
#[derive(Clone, Copy, PartialEq, Eq, Structural, Debug)]
pub struct SimulationTime {
    pub nanos: u64,
}

impl SimulationTime {
    /// Convert a simulation-unit count into a time value.
    pub fn from(val: u64) -> (r: SimulationTime)
        ensures
            r.nanos == val * SIMTIME_ONE_NANOSECOND,
    {
        SimulationTime { nanos: val * SIMTIME_ONE_NANOSECOND }
    }

    /// The value in whole nanoseconds.
    pub fn as_nanos(&self) -> (r: u64)
        ensures
            r == self.nanos,
    {
        self.nanos
    }

    /// The value in whole microseconds.
    pub fn as_micros(&self) -> (r: u64)
        ensures
            r == self.nanos / SIMTIME_ONE_MICROSECOND,
    {
        self.nanos / SIMTIME_ONE_MICROSECOND
    }

    /// The value in whole milliseconds.
    pub fn as_millis(&self) -> (r: u64)
        ensures
            r == self.nanos / SIMTIME_ONE_MILLISECOND,
    {
        self.nanos / SIMTIME_ONE_MILLISECOND
    }

    /// The value in whole seconds.
    pub fn as_secs(&self) -> (r: u64)
        ensures
            r == self.nanos / SIMTIME_ONE_SECOND,
    {
        self.nanos / SIMTIME_ONE_SECOND
    }
}

} // verus!
