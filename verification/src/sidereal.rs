use vstd::prelude::*;
use vstd::arithmetic::div_mod::{
    lemma_div_is_ordered, lemma_div_multiples_vanish, lemma_div_pos_is_pos,
    lemma_hoist_over_denominator, lemma_mod_division_less_than_divisor,
    lemma_mod_multiples_vanish, lemma_multiply_divide_lt,
};

use crate::calendar::{
    mjd_from_gregorian_date, spec_mjd_day, CivilDate, ModifiedJulianDate, MJD_DAY_MAX,
    MJD_DAY_MIN,
};
use crate::codec::{utc_to_decimal_hours, ClockTime, NANOS_PER_DAY};

verus! {

/// The mean-sidereal-time polynomial `6.6460656 + 2400.051262 T + 0.00002581 T^2`
/// hours (T in Julian centuries from 1900 January 0.5) is evaluated exactly in
/// nanoseconds as a single rational with this denominator, `5 * 487 * 487`;
/// with `u = 2 * mjd_day - 30039` (twice the day count from the 1900 epoch),
/// `T = u / 73050` and the numerator below is linear and quadratic in `u`.
pub const GST_DENOM: i64 = 1_185_845;

/// 6.6460656 hours in nanoseconds.
pub const GST_T0_NANOS: i64 = 23_925_836_160_000;

/// Coefficient of `u` in the numerator: 2400.051262 hours per century,
/// scaled to nanoseconds over the common denominator.
pub const GST_LINEAR_NUM: i64 = 2_400_051_262 * 24_000 * 2_435;

/// Coefficient of `u * u` in the numerator: 0.00002581 hours per square
/// century, scaled likewise.
pub const GST_QUAD_NUM: i64 = 20_648;

/// The sidereal rate 1 / 0.9972695677 as the exact ratio of these two.
pub const SIDEREAL_RATE_NUM: i64 = 10_000_000_000;
pub const SIDEREAL_RATE_DENOM: i64 = 9_972_695_677;

/// GMST at 0h never exceeds this for an in-range MJD day (proved below from
/// the numerator bound, which is `GST_DENOM` times this).
pub const GST0_ABS_BOUND: i64 = 1_100_000_000_000_000_000;
pub const GST_NUM_BOUND: i128 = 1_185_845 * 1_100_000_000_000_000_000;
const GST_SHIFT_Q: i128 = 2_000_000_000_000_000_000;

/// Bound on every GMST value this module returns, in nanoseconds.
pub const GMST_ABS_BOUND: i64 = 1_200_000_000_000_000_000;

/// Longitudes lie in (-180, 180] degrees, held in nanodegrees.
pub const LONGITUDE_LIMIT_NANODEG: i64 = 180_000_000_000;

/// One nanodegree of longitude is 240 nanoseconds of time (15 degrees per hour).
pub const NANOS_PER_NANODEG: i64 = 240;

pub open spec fn spec_gst0_numerator(mjd_day: int) -> int {
    let u: int = 2 * mjd_day - 30039;
    GST_T0_NANOS * GST_DENOM + u * GST_LINEAR_NUM + u * u * GST_QUAD_NUM
}

/// Greenwich mean sidereal time at 0h UT of the given MJD day, in
/// nanoseconds: the floor of the polynomial's exact rational value.
pub open spec fn spec_gst0_nanos(mjd_day: int) -> int {
    spec_gst0_numerator(mjd_day) / (GST_DENOM as int)
}

/// The elapsed-UT term: UT since 0h sped up by the sidereal rate.
pub open spec fn spec_sidereal_scale_nanos(utc_nanos: int) -> int {
    (utc_nanos * SIDEREAL_RATE_NUM) / (SIDEREAL_RATE_DENOM as int)
}

/// GMST of a civil instant: the 0h polynomial value of its day plus the
/// scaled UT time of day. Not normalized to [0, 24) hours.
pub open spec fn spec_gmst_nanos(mjd_day: int, utc_nanos: int) -> int {
    spec_gst0_nanos(mjd_day) + spec_sidereal_scale_nanos(utc_nanos)
}

/// LMST: GMST plus the longitude in time units, reduced by the floored
/// modulo into [0, 24) hours, so a westerly (negative) longitude can never
/// produce a negative sidereal time.
pub open spec fn spec_lmst_nanos(gmst_nanos: int, longitude_nanodeg: int) -> int {
    (gmst_nanos + longitude_nanodeg * NANOS_PER_NANODEG) % (NANOS_PER_DAY as int)
}

/// LMST range: for every GMST value and every longitude whatsoever — in
/// particular when GMST plus the longitude term is negative — the floored
/// 24-hour remainder lies in [0, 24) hours.
pub proof fn lemma_lmst_in_range(gmst_nanos: int, longitude_nanodeg: int)
    ensures
        0 <= spec_lmst_nanos(gmst_nanos, longitude_nanodeg) < NANOS_PER_DAY,
{
    lemma_mod_division_less_than_divisor(
        gmst_nanos + longitude_nanodeg * NANOS_PER_NANODEG,
        NANOS_PER_DAY as int,
    );
}

/// GMST at 0h UT of the day, by the fixed-point polynomial. The whole
/// computation is one floored division of the exact numerator.
fn gst0_nanos(mjd_day: i64) -> (r: i64)
    requires
        MJD_DAY_MIN <= mjd_day <= MJD_DAY_MAX,
    ensures
        r == spec_gst0_nanos(mjd_day as int),
        -GST0_ABS_BOUND <= r <= GST0_ABS_BOUND,
{
    let u: i128 = 2 * (mjd_day as i128) - 30039;
    proof {
        let ghost ui: int = u as int;
        assert(0 <= ui * ui <= 81_000_000_000_000) by (nonlinear_arith)
            requires
                -9_000_000 <= ui <= 9_000_000,
        ;
    }
    let uu: i128 = u * u;
    let num: i128 = 28_372_333_181_155_200_000 + u * 140_258_995_751_280_000 + uu
        * 20_648;
    let shifted: i128 = num + 2_371_690_000_000_000_000_000_000;
    let q: u128 = (shifted as u128) / (GST_DENOM as u128);
    proof {
        assert(shifted == num as int + (GST_DENOM as int) * GST_SHIFT_Q);
        lemma_hoist_over_denominator(num as int, GST_SHIFT_Q as int, GST_DENOM as nat);
        assert(q == (num as int) / (GST_DENOM as int) + GST_SHIFT_Q);
        lemma_div_is_ordered(-(GST_NUM_BOUND as int), num as int, GST_DENOM as int);
        lemma_div_is_ordered(num as int, GST_NUM_BOUND as int, GST_DENOM as int);
        assert(GST_NUM_BOUND as int == (GST_DENOM as int) * (GST0_ABS_BOUND as int));
        assert(-(GST_NUM_BOUND as int) == (GST_DENOM as int) * (-(GST0_ABS_BOUND as int)));
        lemma_div_multiples_vanish(GST0_ABS_BOUND as int, GST_DENOM as int);
        lemma_div_multiples_vanish(-(GST0_ABS_BOUND as int), GST_DENOM as int);
    }
    ((q as i128) - GST_SHIFT_Q) as i64
}

/// Greenwich mean sidereal time of a civil UTC instant, in nanoseconds.
///
/// The polynomial is evaluated at 0h UT of the date — only the whole-day
/// part of the MJD enters it — and the intraday advance is added separately
/// from the UT time of day, scaled by the sidereal rate. The result is not
/// normalized to [0, 24) hours; LMST derivation and decoding normalize
/// downstream.
pub fn greenwich_mean_sidereal_time(date: &CivilDate, time: &ClockTime) -> (g: i64)
    requires
        date.wf(),
        time.is_time_of_day(),
    ensures
        g == spec_gmst_nanos(spec_mjd_day(*date), time.as_nanos()),
        -GMST_ABS_BOUND <= g <= GMST_ABS_BOUND,
{
    let mjd: ModifiedJulianDate = mjd_from_gregorian_date(date);
    let utc: i64 = utc_to_decimal_hours(time);
    let base: i64 = gst0_nanos(mjd.day);
    let prod: u128 = (utc as u128) * (SIDEREAL_RATE_NUM as u128);
    let scale: u64 = (prod / (SIDEREAL_RATE_DENOM as u128)) as u64;
    proof {
        lemma_div_pos_is_pos((utc as int) * (SIDEREAL_RATE_NUM as int),
            SIDEREAL_RATE_DENOM as int);
        lemma_multiply_divide_lt((utc as int) * (SIDEREAL_RATE_NUM as int),
            SIDEREAL_RATE_DENOM as int, 90_000_000_000_000);
    }
    base + (scale as i64)
}

/// Local mean sidereal time from GMST and the observer's longitude
/// (positive east), as the floored 24-hour remainder: the result lies in
/// [0, 24) hours for every input, even when GMST plus the longitude term is
/// negative.
pub fn local_mean_sidereal_time(gmst_nanos: i64, longitude_nanodeg: i64) -> (r: i64)
    requires
        -GMST_ABS_BOUND <= gmst_nanos <= GMST_ABS_BOUND,
        -LONGITUDE_LIMIT_NANODEG < longitude_nanodeg <= LONGITUDE_LIMIT_NANODEG,
    ensures
        r == spec_lmst_nanos(gmst_nanos as int, longitude_nanodeg as int),
        0 <= r < NANOS_PER_DAY,
{
    let s: i128 = (gmst_nanos as i128) + (longitude_nanodeg as i128) * 240;
    let shifted: i128 = s + 8_640_000_000_000_000_000;
    let m: u128 = (shifted as u128) % (NANOS_PER_DAY as u128);
    proof {
        assert(shifted == (NANOS_PER_DAY as int) * 100_000 + s);
        lemma_mod_multiples_vanish(100_000, s as int, NANOS_PER_DAY as int);
        lemma_mod_division_less_than_divisor(shifted as int, NANOS_PER_DAY as int);
    }
    m as i64
}

} // verus!
