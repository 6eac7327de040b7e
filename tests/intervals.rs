use diesel::interval::{DayAndMonthIntervalDsl, MicroIntervalDsl, PgInterval};

#[test]
fn micro_intervals_match_pg_values_i64() {
    // '3 microseconds'::interval, '3 milliseconds', '3 seconds', '3 minutes', '3 hours'
    assert_eq!(3i64.microseconds(), PgInterval::new(3, 0, 0));
    assert_eq!(3i64.milliseconds(), PgInterval::new(3_000, 0, 0));
    assert_eq!(3i64.seconds(), PgInterval::new(3_000_000, 0, 0));
    assert_eq!(3i64.minutes(), PgInterval::new(180_000_000, 0, 0));
    assert_eq!(3i64.hours(), PgInterval::new(10_800_000_000, 0, 0));
    assert_eq!((-2i64).hour(), PgInterval::new(-7_200_000_000, 0, 0));
}

#[test]
fn micro_intervals_match_pg_values_f64() {
    // A fractional count is rounded to whole microseconds before the
    // interval is built: '1.5 seconds'::interval is 1 500 000 microseconds.
    let seconds: f64 = 1.5;
    let micros = (seconds * 1_000_000.0).round() as i64;
    assert_eq!(micros.microseconds(), PgInterval::new(1_500_000, 0, 0));
    let minutes: f64 = 0.25;
    let micros = (minutes * 60_000_000.0).round() as i64;
    assert_eq!(micros.microseconds(), 15i64.seconds());
}

#[test]
fn day_and_month_intervals_match_pg_values_i32() {
    assert_eq!(4i32.days(), PgInterval::new(0, 4, 0));
    assert_eq!(4i32.weeks(), PgInterval::new(0, 28, 0));
    assert_eq!(4i32.months(), PgInterval::new(0, 0, 4));
    assert_eq!(4i32.years(), PgInterval::new(0, 0, 48));
    assert_eq!(1i32.year(), 12i32.month());
}

#[test]
fn day_and_month_intervals_match_pg_values_f64() {
    // '1.5 days'::interval is 1 day and 12 hours; '2.5 months' is 2 months
    // and 15 days.
    let days: f64 = 1.5;
    let whole = days.trunc() as i32;
    let rest = (days.fract() * 86_400.0).round() as i64;
    assert_eq!(whole.days().plus(rest.seconds()), PgInterval::new(43_200_000_000, 1, 0));
    let months: f64 = 2.5;
    let whole = months.trunc() as i32;
    let rest = (months.fract() * 30.0).round() as i32;
    assert_eq!(whole.months().plus(rest.days()), PgInterval::new(0, 15, 2));
}
