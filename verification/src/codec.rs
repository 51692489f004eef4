use vstd::prelude::*;
use vstd::arithmetic::div_mod::{
    lemma_fundamental_div_mod, lemma_fundamental_div_mod_converse, lemma_multiply_divide_lt,
};

use crate::errors::SidTimeError;

verus! {

pub const NANOS_PER_SECOND: i64 = 1_000_000_000;
pub const NANOS_PER_MINUTE: i64 = 60_000_000_000;
pub const NANOS_PER_HOUR: i64 = 3_600_000_000_000;
pub const NANOS_PER_DAY: i64 = 86_400_000_000_000;

/// A clock-face decomposition of a decimal-hours value: hour, minute, second
/// and sub-second nanoseconds. The hour field is deliberately not capped at
/// 24: the same decomposition carries elapsed durations (such as a countdown)
/// when the decoder is reused for them.
#[derive(Clone, Copy, Debug, PartialEq, Eq, Structural)]
pub struct ClockTime {
    pub hour: u32,
    pub minute: u32,
    pub second: u32,
    pub nanosecond: u32,
}

impl ClockTime {
    /// Well-formed decomposition: minute, second and nanosecond in range.
    pub open spec fn wf(self) -> bool {
        &&& self.minute < 60
        &&& self.second < 60
        &&& self.nanosecond < 1_000_000_000
    }

    /// A normalized time of day: well-formed and below 24 hours.
    pub open spec fn is_time_of_day(self) -> bool {
        self.wf() && self.hour < 24
    }

    /// The decimal-hours value this decomposition denotes, in nanoseconds.
    pub open spec fn as_nanos(self) -> int {
        self.hour * NANOS_PER_HOUR + self.minute * NANOS_PER_MINUTE
            + self.second * NANOS_PER_SECOND + self.nanosecond
    }
}

/// The clock-time decomposition of a nonnegative nanosecond count: whole
/// hours, then whole minutes, seconds and nanoseconds of the remainder, each
/// taken by truncating division.
pub open spec fn spec_decode(n: int) -> ClockTime {
    let rem_hour: int = n % (NANOS_PER_HOUR as int);
    let rem_minute: int = rem_hour % (NANOS_PER_MINUTE as int);
    ClockTime {
        hour: (n / (NANOS_PER_HOUR as int)) as u32,
        minute: (rem_hour / (NANOS_PER_MINUTE as int)) as u32,
        second: (rem_minute / (NANOS_PER_SECOND as int)) as u32,
        nanosecond: (rem_minute % (NANOS_PER_SECOND as int)) as u32,
    }
}

/// Encode a time of day as decimal hours in nanoseconds:
/// `hour + minute/60 + second/3600 + nanosecond/3.6e12` hours, held exactly.
pub fn utc_to_decimal_hours(t: &ClockTime) -> (n: i64)
    requires
        t.is_time_of_day(),
    ensures
        n == t.as_nanos(),
        0 <= n < NANOS_PER_DAY,
{
    (t.hour as i64) * NANOS_PER_HOUR + (t.minute as i64) * NANOS_PER_MINUTE
        + (t.second as i64) * NANOS_PER_SECOND + (t.nanosecond as i64)
}

/// Decode decimal hours (in nanoseconds) into a clock-time decomposition.
///
/// A negative value is rejected with `InvalidTimeValue`; any nonnegative
/// value is accepted, including 24 hours and beyond, which decode to an
/// elapsed-duration reading with an hour field of 24 or more.
pub fn decimal_to_time(decimal_hours_nanos: i64) -> (r: Result<ClockTime, SidTimeError>)
    ensures
        decimal_hours_nanos >= 0 ==> r == Ok::<ClockTime, SidTimeError>(
            spec_decode(decimal_hours_nanos as int),
        ),
        decimal_hours_nanos >= 0 ==> {
            &&& r matches Ok(t)
            &&& t.wf()
            &&& t.as_nanos() == decimal_hours_nanos
        },
        0 <= decimal_hours_nanos < NANOS_PER_DAY ==> (r matches Ok(t) && t.is_time_of_day()),
        decimal_hours_nanos < 0 ==> r == Err::<ClockTime, SidTimeError>(
            SidTimeError::InvalidTimeValue,
        ),
{
    if decimal_hours_nanos < 0 {
        return Err(SidTimeError::InvalidTimeValue);
    }
    let n: u64 = decimal_hours_nanos as u64;
    let hour: u64 = n / (NANOS_PER_HOUR as u64);
    let rem_hour: u64 = n % (NANOS_PER_HOUR as u64);
    let minute: u64 = rem_hour / (NANOS_PER_MINUTE as u64);
    let rem_minute: u64 = rem_hour % (NANOS_PER_MINUTE as u64);
    let second: u64 = rem_minute / (NANOS_PER_SECOND as u64);
    let nanosecond: u64 = rem_minute % (NANOS_PER_SECOND as u64);
    proof {
        lemma_multiply_divide_lt(n as int, NANOS_PER_HOUR as int, 2_562_048);
        lemma_multiply_divide_lt(rem_hour as int, NANOS_PER_MINUTE as int, 60);
        lemma_multiply_divide_lt(rem_minute as int, NANOS_PER_SECOND as int, 60);
        if n < NANOS_PER_DAY {
            lemma_multiply_divide_lt(n as int, NANOS_PER_HOUR as int, 24);
        }
        lemma_fundamental_div_mod(n as int, NANOS_PER_HOUR as int);
        lemma_fundamental_div_mod(rem_hour as int, NANOS_PER_MINUTE as int);
        lemma_fundamental_div_mod(rem_minute as int, NANOS_PER_SECOND as int);
    }
    Ok(ClockTime {
        hour: hour as u32,
        minute: minute as u32,
        second: second as u32,
        nanosecond: nanosecond as u32,
    })
}

/// Round trip of the codec: decoding the encoding of any well-formed
/// clock-time decomposition gives the decomposition back, exactly. This holds
/// for every well-formed value, times of day and elapsed durations alike.
pub proof fn lemma_decode_inverts_encode(t: ClockTime)
    requires
        t.wf(),
    ensures
        spec_decode(t.as_nanos()) == t,
{
    let n: int = t.as_nanos();
    let rem_hour: int = t.minute * NANOS_PER_MINUTE + t.second * NANOS_PER_SECOND
        + t.nanosecond;
    let rem_minute: int = t.second * NANOS_PER_SECOND + t.nanosecond;
    lemma_fundamental_div_mod_converse(
        n,
        NANOS_PER_HOUR as int,
        t.hour as int,
        rem_hour,
    );
    lemma_fundamental_div_mod_converse(
        rem_hour,
        NANOS_PER_MINUTE as int,
        t.minute as int,
        rem_minute,
    );
    lemma_fundamental_div_mod_converse(
        rem_minute,
        NANOS_PER_SECOND as int,
        t.second as int,
        t.nanosecond as int,
    );
}

} // verus!
