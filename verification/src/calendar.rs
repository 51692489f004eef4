use vstd::prelude::*;
use vstd::arithmetic::div_mod::{
    lemma_div_pos_is_pos, lemma_fundamental_div_mod_converse, lemma_multiply_divide_lt,
};

use crate::codec::{utc_to_decimal_hours, ClockTime, NANOS_PER_DAY};

verus! {

/// Years admitted by the calendar converter. The formula itself is defined
/// for any astronomical year; these bounds only keep the fixed-point sidereal
/// polynomial downstream inside machine integers.
pub const YEAR_MIN: i32 = -9999;
pub const YEAR_MAX: i32 = 9999;

/// Every well-formed civil date has its MJD day number within these bounds.
pub const MJD_DAY_MIN: i64 = -4_400_000;
pub const MJD_DAY_MAX: i64 = 3_000_000;

/// A proleptic civil calendar date, astronomical year numbering (the year
/// before year 1 is year 0). Day/month combinations are not validated against
/// month lengths: an out-of-range day yields the formula's defined value.
#[derive(Clone, Copy, Debug, PartialEq, Eq, Structural)]
pub struct CivilDate {
    pub year: i32,
    pub month: u32,
    pub day: u32,
}

impl CivilDate {
    pub open spec fn wf(self) -> bool {
        &&& YEAR_MIN <= self.year <= YEAR_MAX
        &&& 1 <= self.month <= 12
        &&& 1 <= self.day <= 31
    }
}

/// A Modified Julian Date: the count of days since 1858-11-17 00:00 UTC
/// (Julian Day 2400000.5), split into a signed whole-day count and a
/// nonnegative nanosecond fraction of the day.
#[derive(Clone, Copy, Debug, PartialEq, Eq, Structural)]
pub struct ModifiedJulianDate {
    pub day: i64,
    pub fraction_nanos: u64,
}

impl ModifiedJulianDate {
    pub open spec fn wf(self) -> bool {
        self.fraction_nanos < NANOS_PER_DAY
    }

    /// The full date as a single nanosecond count from the MJD epoch.
    pub open spec fn as_nanos(self) -> int {
        self.day * NANOS_PER_DAY + self.fraction_nanos
    }
}

/// The MJD day number of a civil date at 0h UTC, by the classical
/// Julian-day formula: months January and February count as months 13 and 14
/// of the previous year; dates from 1582-10-15 on are Gregorian (with the
/// century leap correction `b`), earlier dates are Julian; the year term is
/// the floor of 365.25 times the shifted year and the month term the floor of
/// 30.6001 times the shifted month plus one; the offset lands the epoch
/// 1858-11-17 on day 0.
pub open spec fn spec_mjd_day(d: CivilDate) -> int {
    let m: int = if d.month < 3 {
        d.month + 12
    } else {
        d.month as int
    };
    let y: int = if d.month < 3 {
        d.year - 1
    } else {
        d.year as int
    };
    let b: int = if d.year < 1582 || (d.year == 1582 && (d.month < 10 || (d.month == 10
        && d.day < 15))) {
        0
    } else {
        2 - y / 100 + (y / 100) / 4
    };
    (1461 * y) / 4 + (306001 * (m + 1)) / 10000 + d.day + b - 679006
}

/// The MJD of a civil date at 0h UTC; the fractional part is exactly zero.
pub fn mjd_from_gregorian_date(d: &CivilDate) -> (r: ModifiedJulianDate)
    requires
        d.wf(),
    ensures
        r.wf(),
        r.day == spec_mjd_day(*d),
        r.fraction_nanos == 0,
        MJD_DAY_MIN <= r.day <= MJD_DAY_MAX,
{
    let m: i64 = if d.month < 3 {
        d.month as i64 + 12
    } else {
        d.month as i64
    };
    let y: i64 = if d.month < 3 {
        d.year as i64 - 1
    } else {
        d.year as i64
    };
    let b: i64 = if d.year < 1582 || (d.year == 1582 && (d.month < 10 || (d.month == 10
        && d.day < 15))) {
        0
    } else {
        let a: i64 = ((y as u64) / 100) as i64;
        proof {
            lemma_div_pos_is_pos(y as int, 100);
            lemma_multiply_divide_lt(y as int, 100, 101);
            lemma_div_pos_is_pos(y as int / 100, 4);
            lemma_multiply_divide_lt(y as int / 100, 4, 26);
        }
        2 - a + ((a as u64) / 4) as i64
    };
    let c: i64 = if y < 0 {
        let t: u64 = (3 - 1461 * y) as u64;
        let q: u64 = t / 4;
        proof {
            lemma_fundamental_div_mod_converse(
                t as int,
                4,
                q as int,
                t as int - 4 * (q as int),
            );
            lemma_fundamental_div_mod_converse(
                1461 * (y as int),
                4,
                -(q as int),
                3 - (t as int - 4 * (q as int)),
            );
            lemma_multiply_divide_lt(t as int, 4, 3_652_501);
        }
        -(q as i64)
    } else {
        let t: u64 = (1461 * y) as u64;
        proof {
            lemma_div_pos_is_pos(t as int, 4);
            lemma_multiply_divide_lt(t as int, 4, 3_652_135);
        }
        (t / 4) as i64
    };
    let dm: i64 = ((306001 * ((m + 1) as u64)) / 10000) as i64;
    proof {
        lemma_div_pos_is_pos(306001 * ((m + 1) as int), 10000);
        lemma_multiply_divide_lt(306001 * ((m + 1) as int), 10000, 460);
    }
    ModifiedJulianDate { day: c + dm + d.day as i64 + b - 679006, fraction_nanos: 0 }
}

/// The same-day fractional contribution of a time of day to the MJD, in
/// nanoseconds of the day. In this nanosecond fixed-point model the fraction
/// of a day and the decimal-hours encoding of the same time coincide.
pub fn fractional_day_from_time(t: &ClockTime) -> (r: u64)
    requires
        t.is_time_of_day(),
    ensures
        r == t.as_nanos(),
        r < NANOS_PER_DAY,
{
    utc_to_decimal_hours(t) as u64
}

/// The MJD of a full civil datetime. The whole-day part comes from the date
/// alone and the fraction from the time alone, and the two contributions are
/// additive and separable: the result equals `mjd_from_gregorian_date(d)`
/// plus `fractional_day_from_time(t)`, exactly.
pub fn mjd_from_gregorian(date: &CivilDate, time: &ClockTime) -> (r: ModifiedJulianDate)
    requires
        date.wf(),
        time.is_time_of_day(),
    ensures
        r.wf(),
        r.day == spec_mjd_day(*date),
        r.fraction_nanos == time.as_nanos(),
        r.as_nanos() == spec_mjd_day(*date) * NANOS_PER_DAY + time.as_nanos(),
{
    let base: ModifiedJulianDate = mjd_from_gregorian_date(date);
    let frac: u64 = fractional_day_from_time(time);
    ModifiedJulianDate { day: base.day, fraction_nanos: frac }
}

} // verus!
