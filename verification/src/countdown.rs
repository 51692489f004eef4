use vstd::prelude::*;

use crate::codec::{utc_to_decimal_hours, ClockTime, NANOS_PER_DAY};

verus! {

/// Time from `current` until the next occurrence of `target` on a repeating
/// 24-hour dial, in nanoseconds: the plain difference if the target is still
/// ahead, and the difference wrapped forward by 24 hours if it has already
/// passed today.
pub open spec fn spec_countdown_nanos(current_nanos: int, target_nanos: int) -> int {
    if target_nanos - current_nanos >= 0 {
        target_nanos - current_nanos
    } else {
        target_nanos - current_nanos + NANOS_PER_DAY
    }
}

/// Elapsed time until the fixed target clock time next recurs, given the
/// current local mean sidereal clock time. The result is an elapsed duration,
/// never negative and always under 24 hours.
pub fn time_until_peak(current: &ClockTime, target: &ClockTime) -> (d: i64)
    requires
        current.is_time_of_day(),
        target.is_time_of_day(),
    ensures
        d == spec_countdown_nanos(current.as_nanos(), target.as_nanos()),
        0 <= d < NANOS_PER_DAY,
{
    let current_nanos: i64 = utc_to_decimal_hours(current);
    let target_nanos: i64 = utc_to_decimal_hours(target);
    let diff: i64 = target_nanos - current_nanos;
    if diff < 0 {
        diff + NANOS_PER_DAY
    } else {
        diff
    }
}

/// The reference deployment's fixed target sidereal time, 13:30:00.
pub fn spotiswoode_peak_time() -> (t: ClockTime)
    ensures
        t == (ClockTime { hour: 13, minute: 30, second: 0, nanosecond: 0 }),
        t.is_time_of_day(),
{
    ClockTime { hour: 13, minute: 30, second: 0, nanosecond: 0 }
}

} // verus!
