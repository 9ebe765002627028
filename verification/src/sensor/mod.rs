//! Sensors: conversions from a measured voltage to a calibrated reading.

use vstd::prelude::*;

pub mod kellerpa7lc;

pub use kellerpa7lc::KellerPA7LC;

verus! {

/// A sensor wired to a converter input.
///
/// The conversion is a pure function of the voltage: it has no state, no side
/// effect and no failure. Voltages are in microvolts.
pub trait Sensor {
    /// What the sensor measures.
    type Output;

    /// The reading that a voltage stands for.
    spec fn reading(&self, microvolts: i32) -> Self::Output;

    /// Converts a voltage into a reading.
    fn conversion(&self, microvolts: i32) -> (r: Self::Output)
        ensures
            r == self.reading(microvolts),
    ;
}

} // verus!
