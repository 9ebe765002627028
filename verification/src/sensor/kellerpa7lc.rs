//! The Keller PA-7LC pressure transmitter.

use super::Sensor;
use crate::api::sensor::{Pressure, PressureUnit};
use vstd::prelude::*;

verus! {

/// A Keller PA-7LC: one volt at the output stands for one bar, with no offset.
pub struct KellerPA7LC {}

impl KellerPA7LC {
    /// A transmitter. It has no state and no calibration to set.
    pub fn new() -> (r: Self)
        ensures
            r == (KellerPA7LC {  }),
    {
        KellerPA7LC {  }
    }
}

impl Sensor for KellerPA7LC {
    type Output = Pressure;

    open spec fn reading(&self, microvolts: i32) -> Pressure {
        Pressure { microbar: microvolts, unit: PressureUnit::Bar }
    }

    fn conversion(&self, microvolts: i32) -> (r: Pressure) {
        Pressure { microbar: microvolts, unit: PressureUnit::Bar }
    }
}

} // verus!
