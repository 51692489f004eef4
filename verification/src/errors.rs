use vstd::prelude::*;

verus! {

/// Errors of the sidereal-time pipeline.
///
/// `InvalidTimeValue` is raised when a decimal-hours value that is negative is
/// handed to the clock-time decoder. `NoTimezoneFound` and `AmbiguousTimezone`
/// are raised when timezone resolution finds zero, or more than one, zone for
/// a coordinate; they never abort the sidereal computation itself.
#[derive(Clone, Copy, Debug, PartialEq, Eq, Structural)]
pub enum SidTimeError {
    InvalidTimeValue,
    NoTimezoneFound,
    AmbiguousTimezone,
}

} // verus!
