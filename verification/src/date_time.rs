//! A civil point in time: calendar date plus time of day, at nanosecond
//! resolution, within the year range of the underlying calendar library.

use vstd::prelude::*;

use crate::spec_last_day_of_month;

verus! {

/// Smallest calendar year a point in time can hold (chrono's `NaiveDate` range).
pub const MIN_YEAR: i32 = -262143;

/// Largest calendar year a point in time can hold (chrono's `NaiveDate` range).
pub const MAX_YEAR: i32 = 262142;

/// Seconds in a day.
pub const SECS_PER_DAY: u32 = 86_400;

/// Nanoseconds in a second.
pub const NANOS_PER_SEC: u32 = 1_000_000_000;

/// A civil point in time: year, one-based month, one-based day of month,
/// seconds from midnight and nanoseconds within the second.
#[derive(Clone, Copy, Debug, PartialEq, Eq, Structural)]
pub struct DateTime {
    pub year: i32,
    pub month: u32,
    pub day: u32,
    pub secs: u32,
    pub frac: u32,
}

impl DateTime {
    /// The fields describe a day that exists on the calendar and a time of day
    /// below twenty-four hours.
    pub open spec fn wf(self) -> bool {
        &&& MIN_YEAR <= self.year <= MAX_YEAR
        &&& 1 <= self.month <= 12
        &&& 1 <= self.day <= spec_last_day_of_month(self.year as int, self.month as int)
        &&& self.secs < SECS_PER_DAY
        &&& self.frac < NANOS_PER_SEC
    }

    /// Strict chronological order: compare the calendar fields from the most
    /// significant down.
    pub open spec fn spec_before(self, other: DateTime) -> bool {
        if self.year != other.year {
            self.year < other.year
        } else if self.month != other.month {
            self.month < other.month
        } else if self.day != other.day {
            self.day < other.day
        } else if self.secs != other.secs {
            self.secs < other.secs
        } else {
            self.frac < other.frac
        }
    }

    /// Whether `self` lies strictly earlier than `other`.
    pub fn before(&self, other: &DateTime) -> (r: bool)
        ensures
            r == self.spec_before(*other),
    {
        if self.year != other.year {
            self.year < other.year
        } else if self.month != other.month {
            self.month < other.month
        } else if self.day != other.day {
            self.day < other.day
        } else if self.secs != other.secs {
            self.secs < other.secs
        } else {
            self.frac < other.frac
        }
    }
}

/// Whether the seven components name a day that exists on the calendar and a
/// time of day below twenty-four hours.
pub open spec fn spec_ymd_hms_valid(
    year: int,
    month: int,
    day: int,
    hour: int,
    min: int,
    sec: int,
    nano: int,
) -> bool {
    &&& MIN_YEAR <= year <= MAX_YEAR
    &&& 1 <= month <= 12
    &&& 1 <= day <= spec_last_day_of_month(year, month)
    &&& 0 <= hour < 24
    &&& 0 <= min < 60
    &&& 0 <= sec < 60
    &&& 0 <= nano < NANOS_PER_SEC
}

impl DateTime {
    /// Builds a point in time from calendar and clock components, or returns
    /// nothing when they do not name an existing day and time.
    pub fn from_ymd_hms_nano(
        year: i32,
        month: u32,
        day: u32,
        hour: u32,
        min: u32,
        sec: u32,
        nano: u32,
    ) -> (r: Option<DateTime>)
        ensures
            spec_ymd_hms_valid(
                year as int,
                month as int,
                day as int,
                hour as int,
                min as int,
                sec as int,
                nano as int,
            ) <==> r is Some,
            r matches Some(p) ==> p == (DateTime {
                year,
                month,
                day,
                secs: (hour * 3600 + min * 60 + sec) as u32,
                frac: nano,
            }),
            r matches Some(p) ==> p.wf(),
    {
        if year < MIN_YEAR || year > MAX_YEAR || month < 1 || month > 12 {
            return None;
        }
        if day < 1 || day > crate::last_day_of_month(year, month) {
            return None;
        }
        if hour >= 24 || min >= 60 || sec >= 60 || nano >= NANOS_PER_SEC {
            return None;
        }
        Some(DateTime { year, month, day, secs: hour * 3600 + min * 60 + sec, frac: nano })
    }
}

/// The calendar fields of the point that lies the given number of nanoseconds
/// after the point described by the first five components, or nothing when
/// that point falls outside the representable range. Stated abstractly: the
/// shift is a fixed function of the components, computed by the calendar
/// library.
pub uninterp spec fn shifted_point(
    year: int,
    month: int,
    day: int,
    secs: int,
    frac: int,
    delta: int,
) -> Option<(int, int, int, int, int)>;

/// The point `delta` nanoseconds after `dt`, as a `DateTime`.
pub open spec fn spec_add_elapsed(dt: DateTime, delta: int) -> Option<DateTime> {
    match shifted_point(
        dt.year as int,
        dt.month as int,
        dt.day as int,
        dt.secs as int,
        dt.frac as int,
        delta,
    ) {
        Some(t) => Some(
            (DateTime {
                year: t.0 as i32,
                month: t.1 as u32,
                day: t.2 as u32,
                secs: t.3 as u32,
                frac: t.4 as u32,
            }),
        ),
        None => None,
    }
}

/// Relies on chrono: `NaiveDate::from_ymd_opt` and
/// `NaiveTime::from_num_seconds_from_midnight_opt` rebuild the point (both
/// succeed on well-formed fields), `TimeDelta::nanoseconds` forms the span,
/// and `NaiveDateTime::checked_add_signed` adds it, returning `None` exactly
/// when the result leaves the representable range and the unchanged point
/// when the span is zero.
#[verifier::external_body]
fn shift_by_nanos(dt: &DateTime, delta: i64) -> (r: Option<DateTime>)
    requires
        dt.wf(),
    ensures
        (match r {
            Some(p) => p.wf() && shifted_point(
                dt.year as int,
                dt.month as int,
                dt.day as int,
                dt.secs as int,
                dt.frac as int,
                delta as int,
            ) == Some((p.year as int, p.month as int, p.day as int, p.secs as int, p.frac as int)),
            None => shifted_point(
                dt.year as int,
                dt.month as int,
                dt.day as int,
                dt.secs as int,
                dt.frac as int,
                delta as int,
            ) is None,
        }),
        delta == 0 ==> r == Some(*dt),
{
    let date = chrono::NaiveDate::from_ymd_opt(dt.year, dt.month, dt.day)?;
    let time = chrono::NaiveTime::from_num_seconds_from_midnight_opt(dt.secs, dt.frac)?;
    let shifted = chrono::NaiveDateTime::new(date, time)
        .checked_add_signed(chrono::TimeDelta::nanoseconds(delta))?;
    Some(DateTime {
        year: chrono::Datelike::year(&shifted),
        month: chrono::Datelike::month(&shifted),
        day: chrono::Datelike::day(&shifted),
        secs: chrono::Timelike::num_seconds_from_midnight(&shifted),
        frac: chrono::Timelike::nanosecond(&shifted),
    })
}

/// The point the given fixed span after `dt`, or nothing when it falls
/// outside the representable range.
pub fn add_elapsed(dt: &DateTime, elapsed: &crate::elapsed::Elapsed) -> (r: Option<DateTime>)
    requires
        dt.wf(),
    ensures
        r == spec_add_elapsed(*dt, elapsed.nanos as int),
        r matches Some(p) ==> p.wf(),
        elapsed.nanos == 0 ==> r == Some(*dt),
{
    shift_by_nanos(dt, elapsed.nanos)
}

} // verus!
