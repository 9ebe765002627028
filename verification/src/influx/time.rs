//! Timestamps of records.

use std::time::{Duration, SystemTime, SystemTimeError, UNIX_EPOCH};
use vstd::prelude::*;
use vstd::string::*;

verus! {

/// A point in time as the system clock tells it.
#[verifier::external_type_specification]
#[verifier::external_body]
pub struct ExSystemTime(SystemTime);

/// `SystemTime::now`: the clock's reading. Nothing is claimed of it.
#[verifier::external_body]
fn system_time_now() -> (r: SystemTime) {
    SystemTime::now()
}

/// `SystemTime::duration_since`, taken from the Unix epoch: the time elapsed
/// since then, or the error of a clock that stands before it. Nothing is
/// claimed of which.
#[verifier::external_body]
fn since_unix_epoch(time: &SystemTime) -> (r: Result<Duration, SystemTimeError>) {
    time.duration_since(UNIX_EPOCH)
}

/// `Duration::as_secs`: the whole seconds of a duration.
#[verifier::external_body]
fn whole_seconds(duration: &Duration) -> (r: u64) {
    duration.as_secs()
}

/// `Duration::subsec_nanos`: the part of a duration below one second, in
/// nanoseconds.
#[verifier::external_body]
fn subsecond_nanos(duration: &Duration) -> (r: u32) {
    duration.subsec_nanos()
}

/// The unit in which a record's timestamp counts the time since the Unix epoch.
#[derive(Clone, Copy, Debug, PartialEq, Eq, Structural)]
pub enum TimestampPrecision {
    Nanoseconds,
    Microseconds,
    Milliseconds,
    Seconds,
}

impl TimestampPrecision {
    /// The length of this unit in nanoseconds.
    pub open spec fn nanos_per_unit(self) -> int {
        match self {
            TimestampPrecision::Nanoseconds => 1,
            TimestampPrecision::Microseconds => 1_000,
            TimestampPrecision::Milliseconds => 1_000_000,
            TimestampPrecision::Seconds => 1_000_000_000,
        }
    }

    /// The timestamp of a time given in whole seconds and nanoseconds: the
    /// number of whole units in it.
    pub open spec fn spec_timestamp(self, secs: u64, subsec_nanos: u32) -> int {
        (secs * 1_000_000_000 + subsec_nanos) / self.nanos_per_unit()
    }

    /// The name of the accessor of a duration that counts in this unit.
    pub open spec fn accessor(self) -> Seq<char> {
        match self {
            TimestampPrecision::Nanoseconds => "as_nanos"@,
            TimestampPrecision::Microseconds => "as_micros"@,
            TimestampPrecision::Milliseconds => "as_millis"@,
            TimestampPrecision::Seconds => "as_secs"@,
        }
    }

    /// The name of the accessor of a duration that counts in this unit.
    pub fn as_function_call(&self) -> (r: String)
        ensures
            r@ == self.accessor(),
    {
        match *self {
            TimestampPrecision::Nanoseconds => String::from_str("as_nanos"),
            TimestampPrecision::Microseconds => String::from_str("as_micros"),
            TimestampPrecision::Milliseconds => String::from_str("as_millis"),
            TimestampPrecision::Seconds => String::from_str("as_secs"),
        }
    }

    /// The precision that a name stands for, where it names one.
    pub open spec fn named(name: Seq<char>) -> Option<TimestampPrecision> {
        if name == "nanoseconds"@ {
            Some(TimestampPrecision::Nanoseconds)
        } else if name == "microseconds"@ {
            Some(TimestampPrecision::Microseconds)
        } else if name == "milliseconds"@ {
            Some(TimestampPrecision::Milliseconds)
        } else if name == "seconds"@ {
            Some(TimestampPrecision::Seconds)
        } else {
            None
        }
    }

    /// Reads a precision from its name: `nanoseconds`, `microseconds`,
    /// `milliseconds` or `seconds`. Any other text names none.
    pub fn from_name(name: &String) -> (r: Option<TimestampPrecision>)
        ensures
            r == TimestampPrecision::named(name@),
    {
        if *name == String::from_str("nanoseconds") {
            Some(TimestampPrecision::Nanoseconds)
        } else if *name == String::from_str("microseconds") {
            Some(TimestampPrecision::Microseconds)
        } else if *name == String::from_str("milliseconds") {
            Some(TimestampPrecision::Milliseconds)
        } else if *name == String::from_str("seconds") {
            Some(TimestampPrecision::Seconds)
        } else {
            None
        }
    }

    /// The timestamp of a time given in whole seconds and nanoseconds.
    pub fn timestamp(&self, secs: u64, subsec_nanos: u32) -> (r: u128)
        ensures
            r == self.spec_timestamp(secs, subsec_nanos),
    {
        let secs: u128 = secs as u128;
        let nanos: u128 = subsec_nanos as u128;
        match *self {
            TimestampPrecision::Nanoseconds => secs * 1_000_000_000 + nanos,
            TimestampPrecision::Microseconds => secs * 1_000_000 + nanos / 1_000,
            TimestampPrecision::Milliseconds => secs * 1_000 + nanos / 1_000_000,
            TimestampPrecision::Seconds => secs + nanos / 1_000_000_000,
        }
    }

    /// The clock's reading as a timestamp in this unit, where the clock does
    /// not stand before the Unix epoch.
    pub fn now(&self) -> (r: Result<u128, SystemTimeError>)
        ensures
            r matches Ok(t) ==> exists|secs: u64, subsec_nanos: u32|
                t == #[trigger] self.spec_timestamp(secs, subsec_nanos),
    {
        let time = system_time_now();
        match since_unix_epoch(&time) {
            Ok(elapsed) => {
                let secs: u64 = whole_seconds(&elapsed);
                let subsec_nanos: u32 = subsecond_nanos(&elapsed);
                Ok(self.timestamp(secs, subsec_nanos))
            },
            Err(e) => Err(e),
        }
    }
}

} // verus!
