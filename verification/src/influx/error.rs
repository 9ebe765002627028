//! Errors met while writing line protocol.

use std::time::SystemTimeError;
use vstd::prelude::*;
use vstd::std_specs::convert::FromSpecImpl;

verus! {

/// The error of a clock that stands before the Unix epoch.
#[verifier::external_type_specification]
#[verifier::external_body]
pub struct ExSystemTimeError(SystemTimeError);

/// Errors met while writing line protocol.
#[derive(Clone, Copy, Debug, PartialEq, Eq, Structural)]
pub enum LineProtocolError {
    /// General error.
    Error,
    /// The current time could not be had for the record's timestamp.
    FailedToGetSystemTime,
}

impl From<SystemTimeError> for LineProtocolError {
    fn from(_error: SystemTimeError) -> (r: Self) {
        LineProtocolError::FailedToGetSystemTime
    }
}

impl FromSpecImpl<SystemTimeError> for LineProtocolError {
    open spec fn obeys_from_spec() -> bool {
        true
    }

    open spec fn from_spec(_error: SystemTimeError) -> Self {
        LineProtocolError::FailedToGetSystemTime
    }
}

} // verus!
