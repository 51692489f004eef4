use vstd::prelude::*;

use crate::calendar::{mjd_from_gregorian, spec_mjd_day, CivilDate, ModifiedJulianDate};
use crate::codec::{decimal_to_time, spec_decode, ClockTime, NANOS_PER_DAY};
use crate::countdown::{spec_countdown_nanos, time_until_peak};
use crate::sidereal::{
    greenwich_mean_sidereal_time, local_mean_sidereal_time, spec_gmst_nanos,
    spec_lmst_nanos, LONGITUDE_LIMIT_NANODEG,
};

verus! {

/// One evaluation cycle's outputs: the MJD of the instant, GMST raw and as a
/// normalized clock time, LMST likewise, and the countdown to the target.
#[derive(Clone, Copy, Debug, PartialEq, Eq, Structural)]
pub struct SiderealReport {
    pub mjd: ModifiedJulianDate,
    pub gmst_nanos: i64,
    pub gmst_clock: ClockTime,
    pub lmst_nanos: i64,
    pub lmst_clock: ClockTime,
    pub countdown_clock: ClockTime,
}

/// Decode a decimal-hours value already known to be nonnegative; the codec's
/// error branch is unreachable here.
fn decode_clock(nanos: i64) -> (t: ClockTime)
    requires
        nanos >= 0,
    ensures
        t == spec_decode(nanos as int),
        t.wf(),
        t.as_nanos() == nanos,
        nanos < NANOS_PER_DAY ==> t.is_time_of_day(),
{
    match decimal_to_time(nanos) {
        Ok(t) => t,
        Err(_) => ClockTime { hour: 0, minute: 0, second: 0, nanosecond: 0 },
    }
}

/// One full evaluation of the pipeline for a civil UTC instant at a given
/// longitude: civil date and time to MJD, GMST, LMST and the countdown to
/// the next occurrence of the target sidereal clock time.
///
/// GMST is reported both raw (possibly negative or beyond 24 hours, as the
/// polynomial leaves it) and reduced into [0, 24) by the same floored
/// 24-hour remainder that LMST derivation uses, then decoded; so every cycle
/// is total and each clock field of the report is a normalized time of day.
pub fn evaluate_cycle(
    date: &CivilDate,
    time: &ClockTime,
    longitude_nanodeg: i64,
    target: &ClockTime,
) -> (r: SiderealReport)
    requires
        date.wf(),
        time.is_time_of_day(),
        target.is_time_of_day(),
        -LONGITUDE_LIMIT_NANODEG < longitude_nanodeg <= LONGITUDE_LIMIT_NANODEG,
    ensures
        r.mjd.wf(),
        r.mjd.day == spec_mjd_day(*date),
        r.mjd.fraction_nanos == time.as_nanos(),
        r.gmst_nanos == spec_gmst_nanos(spec_mjd_day(*date), time.as_nanos()),
        r.gmst_clock == spec_decode(spec_lmst_nanos(r.gmst_nanos as int, 0)),
        r.lmst_nanos == spec_lmst_nanos(r.gmst_nanos as int, longitude_nanodeg as int),
        0 <= r.lmst_nanos < NANOS_PER_DAY,
        r.lmst_clock == spec_decode(r.lmst_nanos as int),
        r.lmst_clock.is_time_of_day(),
        r.countdown_clock == spec_decode(
            spec_countdown_nanos(r.lmst_nanos as int, target.as_nanos()),
        ),
        r.countdown_clock.wf(),
{
    let mjd: ModifiedJulianDate = mjd_from_gregorian(date, time);
    let gmst_nanos: i64 = greenwich_mean_sidereal_time(date, time);
    let gmst_norm: i64 = local_mean_sidereal_time(gmst_nanos, 0);
    let gmst_clock: ClockTime = decode_clock(gmst_norm);
    let lmst_nanos: i64 = local_mean_sidereal_time(gmst_nanos, longitude_nanodeg);
    let lmst_clock: ClockTime = decode_clock(lmst_nanos);
    let until_peak: i64 = time_until_peak(&lmst_clock, target);
    let countdown_clock: ClockTime = decode_clock(until_peak);
    SiderealReport { mjd, gmst_nanos, gmst_clock, lmst_nanos, lmst_clock, countdown_clock }
}

} // verus!
