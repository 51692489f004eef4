use sidtime::calendar::{fractional_day_from_time, mjd_from_gregorian, mjd_from_gregorian_date, CivilDate};
use sidtime::codec::{decimal_to_time, utc_to_decimal_hours, ClockTime};
use sidtime::countdown::{spotiswoode_peak_time, time_until_peak};
use sidtime::errors::SidTimeError;
use sidtime::pipeline::evaluate_cycle;
use sidtime::sidereal::{greenwich_mean_sidereal_time, local_mean_sidereal_time};
use sidtime::timezone::resolve_timezone;

fn clock(hour: u32, minute: u32, second: u32, nanosecond: u32) -> ClockTime {
    ClockTime { hour, minute, second, nanosecond }
}

#[test]
fn codec_round_trip_peak_time() {
    let t = clock(13, 30, 0, 0);
    let n = utc_to_decimal_hours(&t);
    assert_eq!(n, 48_600_000_000_000);
    assert_eq!(decimal_to_time(n), Ok(t));
}

#[test]
fn codec_round_trip_end_of_day() {
    let t = clock(23, 59, 59, 999_999_999);
    let n = utc_to_decimal_hours(&t);
    assert_eq!(n, 86_399_999_999_999);
    assert_eq!(decimal_to_time(n), Ok(t));
}

#[test]
fn codec_rejects_negative() {
    assert_eq!(decimal_to_time(-1), Err(SidTimeError::InvalidTimeValue));
    assert_eq!(decimal_to_time(i64::MIN), Err(SidTimeError::InvalidTimeValue));
}

#[test]
fn codec_accepts_elapsed_durations_beyond_24_hours() {
    assert_eq!(decimal_to_time(91_800_000_000_000), Ok(clock(25, 30, 0, 0)));
}

#[test]
fn mjd_known_value_1900() {
    let mjd = mjd_from_gregorian_date(&CivilDate { year: 1900, month: 1, day: 1 });
    assert_eq!(mjd.day, 15020);
    assert_eq!(mjd.fraction_nanos, 0);
}

#[test]
fn mjd_epoch_and_2000() {
    let epoch = mjd_from_gregorian_date(&CivilDate { year: 1858, month: 11, day: 17 });
    assert_eq!(epoch.day, 0);
    let y2k = mjd_from_gregorian_date(&CivilDate { year: 2000, month: 1, day: 1 });
    assert_eq!(y2k.day, 51544);
}

#[test]
fn mjd_gregorian_cutover() {
    let first_gregorian = mjd_from_gregorian_date(&CivilDate { year: 1582, month: 10, day: 15 });
    let last_julian = mjd_from_gregorian_date(&CivilDate { year: 1582, month: 10, day: 4 });
    assert_eq!(first_gregorian.day, -100840);
    assert_eq!(last_julian.day, -100841);
    assert_eq!(first_gregorian.day - last_julian.day, 1);
}

#[test]
fn mjd_negative_astronomical_year() {
    // 1 January of astronomical year -4712, the Julian-day epoch: JD 0 falls
    // at noon of that day, so its MJD day number is -2400001.
    let mjd = mjd_from_gregorian_date(&CivilDate { year: -4712, month: 1, day: 1 });
    assert_eq!(mjd.day, -2_400_001);
}

#[test]
fn mjd_additivity() {
    let date = CivilDate { year: 2024, month: 6, day: 1 };
    let time = clock(12, 0, 0, 0);
    let whole = mjd_from_gregorian(&date, &time);
    let date_only = mjd_from_gregorian_date(&date);
    let frac = fractional_day_from_time(&time);
    assert_eq!(whole.day, date_only.day);
    assert_eq!(whole.fraction_nanos, date_only.fraction_nanos + frac);
    assert_eq!(whole.day, 60462);
    assert_eq!(whole.fraction_nanos, 43_200_000_000_000);
}

#[test]
fn gmst_known_values() {
    let midnight = clock(0, 0, 0, 0);
    let g2000 = greenwich_mean_sidereal_time(
        &CivilDate { year: 2000, month: 1, day: 1 },
        &midnight,
    );
    assert_eq!(g2000, 8_663_992_194_593_193);
    let g1900 = greenwich_mean_sidereal_time(
        &CivilDate { year: 1900, month: 1, day: 1 },
        &midnight,
    );
    assert_eq!(g1900, 24_044_113_840_262);
}

#[test]
fn gmst_is_negative_before_the_polynomial_epoch() {
    let g = greenwich_mean_sidereal_time(
        &CivilDate { year: 1800, month: 1, day: 1 },
        &clock(0, 0, 0, 0),
    );
    assert_eq!(g, -8_615_903_781_090_844);
    assert_eq!(decimal_to_time(g), Err(SidTimeError::InvalidTimeValue));
    let lmst = local_mean_sidereal_time(g, 0);
    assert_eq!(decimal_to_time(lmst), Ok(clock(6, 41, 36, 218_909_156)));
}

#[test]
fn lmst_negative_longitude_wraps_positive() {
    let one_hour = 3_600_000_000_000;
    let lmst = local_mean_sidereal_time(one_hour, -150_000_000_000);
    assert_eq!(lmst, 54_000_000_000_000);
    assert_eq!(decimal_to_time(lmst), Ok(clock(15, 0, 0, 0)));
}

#[test]
fn lmst_positive_longitude_wraps_past_midnight() {
    let lmst = local_mean_sidereal_time(23 * 3_600_000_000_000, 30_000_000_000);
    assert_eq!(decimal_to_time(lmst), Ok(clock(1, 0, 0, 0)));
}

#[test]
fn lmst_stays_in_range_for_negative_gmst() {
    let lmst = local_mean_sidereal_time(-9 * 3_600_000_000_000, 0);
    assert_eq!(decimal_to_time(lmst), Ok(clock(15, 0, 0, 0)));
}

#[test]
fn countdown_wraps_when_peak_has_passed() {
    let target = spotiswoode_peak_time();
    let current = clock(14, 0, 0, 0);
    let d = time_until_peak(&current, &target);
    assert_eq!(decimal_to_time(d), Ok(clock(23, 30, 0, 0)));
}

#[test]
fn countdown_same_day_when_peak_is_ahead() {
    let target = spotiswoode_peak_time();
    let current = clock(10, 0, 0, 0);
    let d = time_until_peak(&current, &target);
    assert_eq!(decimal_to_time(d), Ok(clock(3, 30, 0, 0)));
}

#[test]
fn countdown_zero_at_the_peak() {
    let target = spotiswoode_peak_time();
    let d = time_until_peak(&target, &target);
    assert_eq!(d, 0);
}

#[test]
fn timezone_zero_matches_is_an_error() {
    assert_eq!(resolve_timezone(Vec::new()), Err(SidTimeError::NoTimezoneFound));
}

#[test]
fn timezone_single_match_is_returned() {
    let names = vec![String::from("America/New_York")];
    assert_eq!(resolve_timezone(names), Ok(String::from("America/New_York")));
}

#[test]
fn timezone_two_matches_are_ambiguous() {
    let names = vec![String::from("Asia/Shanghai"), String::from("Asia/Urumqi")];
    assert_eq!(resolve_timezone(names), Err(SidTimeError::AmbiguousTimezone));
}

#[test]
fn full_cycle_report() {
    let date = CivilDate { year: 2024, month: 6, day: 1 };
    let time = clock(12, 0, 0, 0);
    let target = spotiswoode_peak_time();
    let report = evaluate_cycle(&date, &time, -71_100_000_000, &target);
    assert_eq!(report.mjd.day, 60462);
    assert_eq!(report.mjd.fraction_nanos, 43_200_000_000_000);
    assert_eq!(report.gmst_nanos, 10_816_911_228_297_079);
    assert_eq!(report.gmst_clock, clock(4, 41, 51, 228_297_079));
    assert_eq!(report.lmst_nanos, 86_247_228_297_079);
    assert_eq!(report.lmst_clock, clock(23, 57, 27, 228_297_079));
    assert_eq!(report.countdown_clock, clock(13, 32, 32, 771_702_921));
}
