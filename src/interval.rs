//! Intervals of the Postgres-like backend, built from integer counts.
use vstd::prelude::*;

verus! {

/// An interval as the Postgres-like backend stores it: microseconds, days
/// and months, kept apart because days and months vary in length.
#[derive(PartialEq, Eq, Structural, Clone, Copy, Debug)]
pub struct PgInterval {
    pub microseconds: i64,
    pub days: i32,
    pub months: i32,
}

impl PgInterval {
    pub fn new(microseconds: i64, days: i32, months: i32) -> (r: Self)
        ensures
            r == (PgInterval { microseconds, days, months }),
    {
        PgInterval { microseconds, days, months }
    }

    pub fn from_microseconds(microseconds: i64) -> (r: Self)
        ensures
            r == (PgInterval { microseconds, days: 0, months: 0 }),
    {
        PgInterval { microseconds, days: 0, months: 0 }
    }

    pub fn from_days(days: i32) -> (r: Self)
        ensures
            r == (PgInterval { microseconds: 0, days, months: 0 }),
    {
        PgInterval { microseconds: 0, days, months: 0 }
    }

    pub fn from_months(months: i32) -> (r: Self)
        ensures
            r == (PgInterval { microseconds: 0, days: 0, months }),
    {
        PgInterval { microseconds: 0, days: 0, months }
    }

    /// The componentwise sum.
    pub fn plus(self, other: PgInterval) -> (r: Self)
        requires
            i64::MIN <= self.microseconds + other.microseconds <= i64::MAX,
            i32::MIN <= self.days + other.days <= i32::MAX,
            i32::MIN <= self.months + other.months <= i32::MAX,
        ensures
            r.microseconds == self.microseconds + other.microseconds,
            r.days == self.days + other.days,
            r.months == self.months + other.months,
    {
        PgInterval {
            microseconds: self.microseconds + other.microseconds,
            days: self.days + other.days,
            months: self.months + other.months,
        }
    }
}

pub open spec fn fits_i64(v: int) -> bool {
    i64::MIN <= v <= i64::MAX
}

pub open spec fn fits_i32(v: int) -> bool {
    i32::MIN <= v <= i32::MAX
}

/// Intervals of a count of microseconds, milliseconds, seconds, minutes or
/// hours.
pub trait MicroIntervalDsl: Sized {
    spec fn count(&self) -> int;

    fn times(self, x: i32) -> (r: Self)
        requires
            fits_i64(self.count() * x),
        ensures
            r.count() == self.count() * x,
    ;

    fn microseconds(self) -> (r: PgInterval)
        requires
            fits_i64(self.count()),
        ensures
            r == (PgInterval { microseconds: self.count() as i64, days: 0, months: 0 }),
    ;

    fn milliseconds(self) -> (r: PgInterval)
        requires
            fits_i64(self.count() * 1000),
        ensures
            r == (PgInterval { microseconds: (self.count() * 1000) as i64, days: 0, months: 0 }),
    {
        self.times(1000).microseconds()
    }

    fn seconds(self) -> (r: PgInterval)
        requires
            fits_i64(self.count() * 1_000_000),
        ensures
            r == (PgInterval { microseconds: (self.count() * 1_000_000) as i64, days: 0, months: 0 }),
    {
        let t = self.times(1000);
        assert(t.count() * 1000 == self.count() * 1_000_000);
        t.milliseconds()
    }

    fn minutes(self) -> (r: PgInterval)
        requires
            fits_i64(self.count() * 60_000_000),
        ensures
            r == (PgInterval {
                microseconds: (self.count() * 60_000_000) as i64,
                days: 0,
                months: 0,
            }),
    {
        let t = self.times(60);
        assert(t.count() * 1_000_000 == self.count() * 60_000_000);
        t.seconds()
    }

    fn hours(self) -> (r: PgInterval)
        requires
            fits_i64(self.count() * 3_600_000_000),
        ensures
            r == (PgInterval {
                microseconds: (self.count() * 3_600_000_000) as i64,
                days: 0,
                months: 0,
            }),
    {
        let t = self.times(60);
        assert(t.count() * 60_000_000 == self.count() * 3_600_000_000);
        t.minutes()
    }

    fn microsecond(self) -> (r: PgInterval)
        requires
            fits_i64(self.count()),
        ensures
            r == (PgInterval { microseconds: self.count() as i64, days: 0, months: 0 }),
    {
        self.microseconds()
    }

    fn millisecond(self) -> (r: PgInterval)
        requires
            fits_i64(self.count() * 1000),
        ensures
            r == (PgInterval { microseconds: (self.count() * 1000) as i64, days: 0, months: 0 }),
    {
        self.milliseconds()
    }

    fn second(self) -> (r: PgInterval)
        requires
            fits_i64(self.count() * 1_000_000),
        ensures
            r == (PgInterval { microseconds: (self.count() * 1_000_000) as i64, days: 0, months: 0 }),
    {
        self.seconds()
    }

    fn minute(self) -> (r: PgInterval)
        requires
            fits_i64(self.count() * 60_000_000),
        ensures
            r == (PgInterval {
                microseconds: (self.count() * 60_000_000) as i64,
                days: 0,
                months: 0,
            }),
    {
        self.minutes()
    }

    fn hour(self) -> (r: PgInterval)
        requires
            fits_i64(self.count() * 3_600_000_000),
        ensures
            r == (PgInterval {
                microseconds: (self.count() * 3_600_000_000) as i64,
                days: 0,
                months: 0,
            }),
    {
        self.hours()
    }
}

impl MicroIntervalDsl for i64 {
    open spec fn count(&self) -> int {
        *self as int
    }

    fn times(self, x: i32) -> (r: i64) {
        self * x as i64
    }

    fn microseconds(self) -> (r: PgInterval) {
        PgInterval::from_microseconds(self)
    }
}

/// Intervals of a count of days, weeks, months or years.
pub trait DayAndMonthIntervalDsl: Sized {
    spec fn count(&self) -> int;

    fn times(self, x: i32) -> (r: Self)
        requires
            fits_i32(self.count() * x),
        ensures
            r.count() == self.count() * x,
    ;

    fn days(self) -> (r: PgInterval)
        requires
            fits_i32(self.count()),
        ensures
            r == (PgInterval { microseconds: 0, days: self.count() as i32, months: 0 }),
    ;

    fn months(self) -> (r: PgInterval)
        requires
            fits_i32(self.count()),
        ensures
            r == (PgInterval { microseconds: 0, days: 0, months: self.count() as i32 }),
    ;

    fn weeks(self) -> (r: PgInterval)
        requires
            fits_i32(self.count() * 7),
        ensures
            r == (PgInterval { microseconds: 0, days: (self.count() * 7) as i32, months: 0 }),
    {
        self.times(7).days()
    }

    fn years(self) -> (r: PgInterval)
        requires
            fits_i32(self.count() * 12),
        ensures
            r == (PgInterval { microseconds: 0, days: 0, months: (self.count() * 12) as i32 }),
    {
        self.times(12).months()
    }

    fn day(self) -> (r: PgInterval)
        requires
            fits_i32(self.count()),
        ensures
            r == (PgInterval { microseconds: 0, days: self.count() as i32, months: 0 }),
    {
        self.days()
    }

    fn week(self) -> (r: PgInterval)
        requires
            fits_i32(self.count() * 7),
        ensures
            r == (PgInterval { microseconds: 0, days: (self.count() * 7) as i32, months: 0 }),
    {
        self.weeks()
    }

    fn month(self) -> (r: PgInterval)
        requires
            fits_i32(self.count()),
        ensures
            r == (PgInterval { microseconds: 0, days: 0, months: self.count() as i32 }),
    {
        self.months()
    }

    fn year(self) -> (r: PgInterval)
        requires
            fits_i32(self.count() * 12),
        ensures
            r == (PgInterval { microseconds: 0, days: 0, months: (self.count() * 12) as i32 }),
    {
        self.years()
    }
}

impl DayAndMonthIntervalDsl for i32 {
    open spec fn count(&self) -> int {
        *self as int
    }

    fn times(self, x: i32) -> (r: i32) {
        self * x
    }

    fn days(self) -> (r: PgInterval) {
        PgInterval::from_days(self)
    }

    fn months(self) -> (r: PgInterval) {
        PgInterval::from_months(self)
    }
}

} // verus!
