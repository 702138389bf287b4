//! A duration type that is aware of months and years, and the arithmetic
//! that applies such a duration to a civil point in time.
//!
//! Adding months is delicate because months vary in length: a month after
//! January 31 would be February 31, which does not exist. The arithmetic
//! here settles such sums on the last valid day of the target month, so a
//! month after January 31 is February 28 (or 29 in a leap year).

use vstd::prelude::*;

use crate::date_time::{spec_add_elapsed, DateTime, MAX_YEAR, MIN_YEAR};
use crate::elapsed::Elapsed;
use crate::spec_last_day_of_month;

verus! {

/// A duration made of a fixed elapsed span plus separate counts of calendar
/// months and years. The three components are never normalized into one
/// another: thirteen months stays thirteen months, because applying years
/// and months in distinct steps can settle on different days.
#[derive(Clone, Copy, Debug, PartialEq, Eq, Structural)]
pub struct CalendarDuration {
    pub duration: Elapsed,
    pub months: i32,
    pub years: i32,
}

impl CalendarDuration {
    /// A duration of the given number of calendar years.
    pub fn years(years: i32) -> (r: CalendarDuration)
        ensures
            r.duration.nanos == 0 && r.months == 0 && r.years == years,
    {
        CalendarDuration { duration: Elapsed::zero(), months: 0, years }
    }

    /// A duration of the given number of calendar months.
    pub fn months(months: i32) -> (r: CalendarDuration)
        ensures
            r.duration.nanos == 0 && r.months == months && r.years == 0,
    {
        CalendarDuration { duration: Elapsed::zero(), months, years: 0 }
    }

    /// A duration of the given number of weeks of fixed length.
    pub fn weeks(weeks: i64) -> (r: CalendarDuration)
        requires
            i64::MIN <= weeks * crate::elapsed::NANOS_PER_WEEK <= i64::MAX,
        ensures
            r.duration.nanos == weeks * crate::elapsed::NANOS_PER_WEEK,
            r.months == 0 && r.years == 0,
    {
        CalendarDuration { duration: Elapsed::weeks(weeks), months: 0, years: 0 }
    }

    /// A duration of the given number of days of fixed length.
    pub fn days(days: i64) -> (r: CalendarDuration)
        requires
            i64::MIN <= days * crate::elapsed::NANOS_PER_DAY <= i64::MAX,
        ensures
            r.duration.nanos == days * crate::elapsed::NANOS_PER_DAY,
            r.months == 0 && r.years == 0,
    {
        CalendarDuration { duration: Elapsed::days(days), months: 0, years: 0 }
    }

    /// A duration of the given number of hours.
    pub fn hours(hours: i64) -> (r: CalendarDuration)
        requires
            i64::MIN <= hours * crate::elapsed::NANOS_PER_HOUR <= i64::MAX,
        ensures
            r.duration.nanos == hours * crate::elapsed::NANOS_PER_HOUR,
            r.months == 0 && r.years == 0,
    {
        CalendarDuration { duration: Elapsed::hours(hours), months: 0, years: 0 }
    }

    /// A duration of the given number of minutes.
    pub fn minutes(minutes: i64) -> (r: CalendarDuration)
        requires
            i64::MIN <= minutes * crate::elapsed::NANOS_PER_MINUTE <= i64::MAX,
        ensures
            r.duration.nanos == minutes * crate::elapsed::NANOS_PER_MINUTE,
            r.months == 0 && r.years == 0,
    {
        CalendarDuration { duration: Elapsed::minutes(minutes), months: 0, years: 0 }
    }

    /// A duration of the given number of seconds.
    pub fn seconds(seconds: i64) -> (r: CalendarDuration)
        requires
            i64::MIN <= seconds * crate::elapsed::NANOS_PER_SEC <= i64::MAX,
        ensures
            r.duration.nanos == seconds * crate::elapsed::NANOS_PER_SEC,
            r.months == 0 && r.years == 0,
    {
        CalendarDuration { duration: Elapsed::seconds(seconds), months: 0, years: 0 }
    }

    /// A duration of the given number of milliseconds.
    pub fn milliseconds(milliseconds: i64) -> (r: CalendarDuration)
        requires
            i64::MIN <= milliseconds * crate::elapsed::NANOS_PER_MILLI <= i64::MAX,
        ensures
            r.duration.nanos == milliseconds * crate::elapsed::NANOS_PER_MILLI,
            r.months == 0 && r.years == 0,
    {
        CalendarDuration { duration: Elapsed::milliseconds(milliseconds), months: 0, years: 0 }
    }

    /// A duration of the given number of microseconds.
    pub fn microseconds(microseconds: i64) -> (r: CalendarDuration)
        requires
            i64::MIN <= microseconds * crate::elapsed::NANOS_PER_MICRO <= i64::MAX,
        ensures
            r.duration.nanos == microseconds * crate::elapsed::NANOS_PER_MICRO,
            r.months == 0 && r.years == 0,
    {
        CalendarDuration { duration: Elapsed::microseconds(microseconds), months: 0, years: 0 }
    }

    /// A duration of the given number of nanoseconds.
    pub fn nanoseconds(nanoseconds: i64) -> (r: CalendarDuration)
        ensures
            r.duration.nanos == nanoseconds && r.months == 0 && r.years == 0,
    {
        CalendarDuration { duration: Elapsed::nanoseconds(nanoseconds), months: 0, years: 0 }
    }

    /// The empty duration.
    pub fn zero() -> (r: CalendarDuration)
        ensures
            r.duration.nanos == 0 && r.months == 0 && r.years == 0,
    {
        CalendarDuration { duration: Elapsed::zero(), months: 0, years: 0 }
    }

    /// A duration with the given fixed elapsed span and no months or years.
    pub fn from_elapsed(duration: Elapsed) -> (r: CalendarDuration)
        ensures
            r.duration == duration && r.months == 0 && r.years == 0,
    {
        CalendarDuration { duration, months: 0, years: 0 }
    }

    /// The fixed elapsed component of the duration.
    pub fn duration_part(&self) -> (r: &Elapsed)
        ensures
            r == self.duration,
    {
        &self.duration
    }

    /// The component-wise sum of two durations, when every component fits.
    pub open spec fn spec_checked_add(self, other: CalendarDuration) -> Option<CalendarDuration> {
        if i64::MIN <= self.duration.nanos + other.duration.nanos <= i64::MAX
            && i32::MIN <= self.months + other.months <= i32::MAX
            && i32::MIN <= self.years + other.years <= i32::MAX {
            Some(
                (CalendarDuration {
                    duration: Elapsed { nanos: (self.duration.nanos + other.duration.nanos) as i64 },
                    months: (self.months + other.months) as i32,
                    years: (self.years + other.years) as i32,
                }),
            )
        } else {
            None
        }
    }

    /// Adds two durations component-wise, or returns nothing when any
    /// component's sum does not fit its integer range.
    pub fn checked_add(&self, other: &CalendarDuration) -> (r: Option<CalendarDuration>)
        ensures
            r == self.spec_checked_add(*other),
    {
        let duration = match self.duration.checked_add(&other.duration) {
            Some(d) => d,
            None => {
                return None;
            },
        };
        let months = match self.months.checked_add(other.months) {
            Some(m) => m,
            None => {
                return None;
            },
        };
        let years = match self.years.checked_add(other.years) {
            Some(y) => y,
            None => {
                return None;
            },
        };
        Some(CalendarDuration { duration, months, years })
    }

    /// The duration scaled component-wise by an integer factor, when every
    /// component fits.
    pub open spec fn spec_checked_mul(self, rhs: int) -> Option<CalendarDuration> {
        if i64::MIN <= self.duration.nanos * rhs <= i64::MAX
            && i32::MIN <= self.months * rhs <= i32::MAX
            && i32::MIN <= self.years * rhs <= i32::MAX {
            Some(
                (CalendarDuration {
                    duration: Elapsed { nanos: (self.duration.nanos * rhs) as i64 },
                    months: (self.months * rhs) as i32,
                    years: (self.years * rhs) as i32,
                }),
            )
        } else {
            None
        }
    }

    /// Scales every component by an integer factor, or returns nothing when
    /// any product does not fit its integer range.
    pub fn checked_mul(&self, rhs: i32) -> (r: Option<CalendarDuration>)
        ensures
            r == self.spec_checked_mul(rhs as int),
    {
        let duration = match self.duration.checked_mul(rhs) {
            Some(d) => d,
            None => {
                return None;
            },
        };
        let months = match self.months.checked_mul(rhs) {
            Some(m) => m,
            None => {
                return None;
            },
        };
        let years = match self.years.checked_mul(rhs) {
            Some(y) => y,
            None => {
                return None;
            },
        };
        Some(CalendarDuration { duration, months, years })
    }

    /// The component-wise sum; the caller guarantees every component fits.
    pub fn add(self, rhs: CalendarDuration) -> (r: CalendarDuration)
        requires
            i64::MIN <= self.duration.nanos + rhs.duration.nanos <= i64::MAX,
            i32::MIN <= self.months + rhs.months <= i32::MAX,
            i32::MIN <= self.years + rhs.years <= i32::MAX,
        ensures
            r.duration.nanos == self.duration.nanos + rhs.duration.nanos,
            r.months == self.months + rhs.months,
            r.years == self.years + rhs.years,
    {
        CalendarDuration {
            duration: self.duration.add(rhs.duration),
            months: self.months + rhs.months,
            years: self.years + rhs.years,
        }
    }

    /// The component-wise difference; the caller guarantees every component
    /// fits.
    pub fn sub(self, rhs: CalendarDuration) -> (r: CalendarDuration)
        requires
            i64::MIN <= self.duration.nanos - rhs.duration.nanos <= i64::MAX,
            i32::MIN <= self.months - rhs.months <= i32::MAX,
            i32::MIN <= self.years - rhs.years <= i32::MAX,
        ensures
            r.duration.nanos == self.duration.nanos - rhs.duration.nanos,
            r.months == self.months - rhs.months,
            r.years == self.years - rhs.years,
    {
        CalendarDuration {
            duration: self.duration.sub(rhs.duration),
            months: self.months - rhs.months,
            years: self.years - rhs.years,
        }
    }

    /// Every component scaled by an integer factor; the caller guarantees
    /// every product fits.
    pub fn mul(self, rhs: i32) -> (r: CalendarDuration)
        requires
            i64::MIN <= self.duration.nanos * rhs <= i64::MAX,
            i32::MIN <= self.months * rhs <= i32::MAX,
            i32::MIN <= self.years * rhs <= i32::MAX,
        ensures
            r.duration.nanos == self.duration.nanos * rhs,
            r.months == self.months * rhs,
            r.years == self.years * rhs,
    {
        CalendarDuration {
            duration: self.duration.mul(rhs),
            months: self.months * rhs,
            years: self.years * rhs,
        }
    }

    /// Every component divided by an integer factor, rounding toward zero.
    pub fn div(self, rhs: i32) -> (r: CalendarDuration)
        requires
            rhs != 0,
            !(self.duration.nanos == i64::MIN && rhs == -1),
            !(self.months == i32::MIN && rhs == -1),
            !(self.years == i32::MIN && rhs == -1),
        ensures
            r.duration.nanos == crate::elapsed::spec_trunc_div(
                self.duration.nanos as int,
                rhs as int,
            ),
            r.months == crate::elapsed::spec_trunc_div(self.months as int, rhs as int),
            r.years == crate::elapsed::spec_trunc_div(self.years as int, rhs as int),
    {
        CalendarDuration {
            duration: self.duration.div(rhs),
            months: div_i32(self.months, rhs),
            years: div_i32(self.years, rhs),
        }
    }

    /// Every component negated; the caller guarantees every component fits.
    pub fn neg(self) -> (r: CalendarDuration)
        requires
            self.duration.nanos != i64::MIN,
            self.months != i32::MIN,
            self.years != i32::MIN,
        ensures
            r.duration.nanos == -self.duration.nanos,
            r.months == -self.months,
            r.years == -self.years,
    {
        CalendarDuration {
            duration: self.duration.neg(),
            months: -self.months,
            years: -self.years,
        }
    }
}

/// Applying the component-wise sum of two durations in one shot is the same
/// as applying the sum's elapsed span, then its years, then its months, in
/// that fixed documented order. (Applying the two durations one after the
/// other is a different operation: clamping makes application of a sum and
/// successive application disagree.)
pub proof fn lemma_sum_applies_components_in_order(
    dt: DateTime,
    a: CalendarDuration,
    b: CalendarDuration,
    s: CalendarDuration,
)
    requires
        s.duration.nanos == a.duration.nanos + b.duration.nanos,
        s.months == a.months + b.months,
        s.years == a.years + b.years,
    ensures
        spec_checked_add(dt, s) == (match spec_add_elapsed(
            dt,
            a.duration.nanos + b.duration.nanos,
        ) {
            None => None,
            Some(p) => match spec_add_years(p, a.years + b.years) {
                None => None,
                Some(q) => spec_add_months(q, a.months + b.months),
            },
        }),
{
}

/// Adding one month to January 31 of any year clamps to the last day of
/// February: the 29th in a leap year, the 28th in a common year.
pub proof fn lemma_month_after_january_31(dt: DateTime)
    requires
        dt.wf(),
        dt.month == 1,
        dt.day == 31,
    ensures
        spec_add_months(dt, 1) == Some(
            (DateTime {
                year: dt.year,
                month: 2,
                day: if crate::spec_is_leap_year(dt.year as int) {
                    29u32
                } else {
                    28u32
                },
                secs: dt.secs,
                frac: dt.frac,
            }),
        ),
{
    vstd::arithmetic::div_mod::lemma_basic_div(1, 12);
    vstd::arithmetic::div_mod::lemma_small_mod(1nat, 12nat);
}

/// Subtracting one month from any date in March lands in February of the
/// same year, on the same day clamped to February's length.
pub proof fn lemma_month_before_march(dt: DateTime)
    requires
        dt.wf(),
        dt.month == 3,
    ensures
        ({
            let ld = spec_last_day_of_month(dt.year as int, 2);
            spec_add_months(dt, -1) == Some(
                (DateTime {
                    year: dt.year,
                    month: 2,
                    day: (if dt.day <= ld {
                        dt.day as int
                    } else {
                        ld
                    }) as u32,
                    secs: dt.secs,
                    frac: dt.frac,
                }),
            )
        }),
{
    vstd::arithmetic::div_mod::lemma_basic_div(1, 12);
    vstd::arithmetic::div_mod::lemma_small_mod(1nat, 12nat);
}

/// Subtracting one month from a date in January crosses the year boundary
/// and lands in December of the previous year, because the carried year
/// count floors toward negative infinity instead of truncating toward zero.
pub proof fn lemma_month_before_january(dt: DateTime)
    requires
        dt.wf(),
        dt.month == 1,
        MIN_YEAR < dt.year,
    ensures
        spec_add_months(dt, -1) == Some(
            (DateTime {
                year: (dt.year - 1) as i32,
                month: 12,
                day: dt.day,
                secs: dt.secs,
                frac: dt.frac,
            }),
        ),
{
    vstd::arithmetic::div_mod::lemma_fundamental_div_mod_converse_div(-1, 12, -1, 11);
    vstd::arithmetic::div_mod::lemma_fundamental_div_mod_converse_mod(-1, 12, -1, 11);
}

/// A year shift that leaves the representable year range fails; in
/// particular, adding three hundred thousand years fails for every date of
/// the common era.
pub proof fn lemma_add_years_out_of_range(dt: DateTime, years: int)
    requires
        !(MIN_YEAR <= dt.year + years <= MAX_YEAR),
    ensures
        spec_add_years(dt, years) is None,
{
}

/// A 32-bit quotient rounding toward zero.
fn div_i32(a: i32, b: i32) -> (r: i32)
    requires
        b != 0,
        !(a == i32::MIN && b == -1),
    ensures
        r == crate::elapsed::spec_trunc_div(a as int, b as int),
{
    proof {
        lemma_trunc_div_in_i32_range(a as int, b as int);
    }
    match a.checked_div(b) {
        Some(n) => n,
        None => 0,
    }
}

/// The point one whole number of years after `dt`: the year field moves, the
/// rest stays. The result is nothing when the target year is out of range or
/// when the day does not exist in the target year (February 29 moved to a
/// common year).
pub open spec fn spec_add_years(dt: DateTime, years: int) -> Option<DateTime> {
    let ny = dt.year + years;
    if !(MIN_YEAR <= ny <= MAX_YEAR) {
        None
    } else if dt.day <= spec_last_day_of_month(ny, dt.month as int) {
        Some(
            (DateTime {
                year: ny as i32,
                month: dt.month,
                day: dt.day,
                secs: dt.secs,
                frac: dt.frac,
            }),
        )
    } else {
        None
    }
}

/// The point one whole number of months after `dt`. The target month is the
/// zero-based month count plus the offset, carried into years with floor
/// division so that negative offsets cross year boundaries correctly; the day
/// is clamped to the last valid day of the target month. The result is
/// nothing when the target year is out of range.
pub open spec fn spec_add_months(dt: DateTime, months: int) -> Option<DateTime> {
    let target = dt.month - 1 + months;
    let ay = target / 12;
    let m0 = target % 12;
    let ny = dt.year + ay;
    if !(MIN_YEAR <= ny <= MAX_YEAR) {
        None
    } else {
        let ld = spec_last_day_of_month(ny, m0 + 1);
        Some(
            (DateTime {
                year: ny as i32,
                month: (m0 + 1) as u32,
                day: (if dt.day <= ld {
                    dt.day as int
                } else {
                    ld
                }) as u32,
                secs: dt.secs,
                frac: dt.frac,
            }),
        )
    }
}

/// The whole application of a calendar duration to a point: first the fixed
/// elapsed span, then the years, then the months, each step failing the whole
/// sum when it leaves the representable range. The order is a deliberate,
/// observable policy choice: orderings differ whenever a step lands on a
/// clamped day.
pub open spec fn spec_checked_add(dt: DateTime, duration: CalendarDuration) -> Option<DateTime> {
    match spec_add_elapsed(dt, duration.duration.nanos as int) {
        None => None,
        Some(a) => match spec_add_years(a, duration.years as int) {
            None => None,
            Some(b) => spec_add_months(b, duration.months as int),
        },
    }
}

/// The point `k` whole steps of `duration` after `from`. Every step is
/// computed afresh as `from + duration * k`, never as the previous point
/// plus one step, so that a clamped day does not drag later points with it.
pub open spec fn spec_nth(from: DateTime, duration: CalendarDuration, k: int) -> Option<DateTime> {
    match duration.spec_checked_mul(k) {
        None => None,
        Some(d) => spec_checked_add(from, d),
    }
}

/// Moves `dt` by the given number of calendar years, or returns nothing when
/// the target year is out of range or the day does not exist in it.
pub fn add_years(dt: &DateTime, years: i32) -> (r: Option<DateTime>)
    requires
        dt.wf(),
    ensures
        r == spec_add_years(*dt, years as int),
        r matches Some(p) ==> p.wf(),
{
    let ny64: i64 = dt.year as i64 + years as i64;
    if ny64 < MIN_YEAR as i64 || ny64 > MAX_YEAR as i64 {
        return None;
    }
    let ny: i32 = ny64 as i32;
    if dt.day <= crate::last_day_of_month(ny, dt.month) {
        Some(DateTime { year: ny, month: dt.month, day: dt.day, secs: dt.secs, frac: dt.frac })
    } else {
        None
    }
}

/// Twelve times this many years is larger than any 32-bit month offset, so
/// adding it keeps the month computation on non-negative numbers.
const MONTH_BIAS_YEARS: i64 = 178_956_971;

/// Twelve months for every bias year.
const MONTH_BIAS: i64 = 2_147_483_652;

/// Moves `dt` by the given number of calendar months, clamping the day to
/// the last valid day of the target month, or returns nothing when the
/// target year is out of range.
pub fn add_months(dt: &DateTime, months: i32) -> (r: Option<DateTime>)
    requires
        dt.wf(),
    ensures
        r == spec_add_months(*dt, months as int),
        r matches Some(p) ==> p.wf(),
{
    let target: i64 = dt.month as i64 - 1 + months as i64;
    let shifted: u64 = (target + MONTH_BIAS) as u64;
    let q: u64 = shifted / 12;
    let m0: u32 = (shifted % 12) as u32;
    proof {
        let t = target as int;
        vstd::arithmetic::div_mod::lemma_fundamental_div_mod(t, 12);
        vstd::arithmetic::div_mod::lemma_mod_bound(t, 12);
        vstd::arithmetic::div_mod::lemma_fundamental_div_mod_converse_div(
            shifted as int,
            12,
            t / 12 + MONTH_BIAS_YEARS,
            t % 12,
        );
        vstd::arithmetic::div_mod::lemma_fundamental_div_mod_converse_mod(
            shifted as int,
            12,
            t / 12 + MONTH_BIAS_YEARS,
            t % 12,
        );
    }
    let ay: i64 = q as i64 - MONTH_BIAS_YEARS;
    let ny64: i64 = dt.year as i64 + ay;
    if ny64 < MIN_YEAR as i64 || ny64 > MAX_YEAR as i64 {
        return None;
    }
    let ny: i32 = ny64 as i32;
    let ld: u32 = crate::last_day_of_month(ny, m0 + 1);
    let day: u32 = if dt.day <= ld {
        dt.day
    } else {
        ld
    };
    Some(DateTime { year: ny, month: m0 + 1, day, secs: dt.secs, frac: dt.frac })
}

/// Applying a duration with no months and no years moves only by the fixed
/// span, so a wholly empty duration moves nothing.
proof fn lemma_add_months_zero(dt: DateTime)
    requires
        dt.wf(),
    ensures
        spec_add_months(dt, 0) == Some(dt),
{
    vstd::arithmetic::div_mod::lemma_basic_div(dt.month - 1, 12);
    vstd::arithmetic::div_mod::lemma_small_mod((dt.month - 1) as nat, 12nat);
}

/// Applies `duration` to `dt`: first the fixed elapsed span, then the years,
/// then the months, in that fixed order; returns nothing as soon as one step
/// leaves the representable range.
pub fn checked_add(dt: &DateTime, duration: &CalendarDuration) -> (r: Option<DateTime>)
    requires
        dt.wf(),
    ensures
        r == spec_checked_add(*dt, *duration),
        r matches Some(p) ==> p.wf(),
        duration.duration.nanos == 0 && duration.months == 0 && duration.years == 0 ==> r
            == Some(*dt),
        duration.duration.nanos == 0 && !(MIN_YEAR <= dt.year + duration.years <= MAX_YEAR)
            ==> r is None,
{
    proof {
        lemma_add_months_zero(*dt);
    }
    match crate::date_time::add_elapsed(dt, &duration.duration) {
        None => None,
        Some(a) => match add_years(&a, duration.years) {
            None => None,
            Some(b) => add_months(&b, duration.months),
        },
    }
}

/// Applies `duration` to `dt` when the caller has already ruled overflow
/// out; an unverified caller that breaks that promise stops the program
/// instead of receiving a wrong point.
pub fn add(dt: &DateTime, duration: &CalendarDuration) -> (r: DateTime)
    requires
        dt.wf(),
        spec_checked_add(*dt, *duration) is Some,
    ensures
        Some(r) == spec_checked_add(*dt, *duration),
        r.wf(),
{
    checked_add(dt, duration).unwrap()
}

/// A truncating quotient of a representable 32-bit dividend stays
/// representable, except for the smallest value divided by minus one.
proof fn lemma_trunc_div_in_i32_range(a: int, b: int)
    requires
        i32::MIN <= a <= i32::MAX,
        b != 0,
        !(a == i32::MIN && b == -1),
    ensures
        i32::MIN <= crate::elapsed::spec_trunc_div(a, b) <= i32::MAX,
{
    if a > 0 && b > 0 {
        vstd::arithmetic::div_mod::lemma_div_basics_4(a, b);
        vstd::arithmetic::div_mod::lemma_div_basics_5(a, b);
    } else if a < 0 && b < 0 {
        vstd::arithmetic::div_mod::lemma_div_basics_4(a * -1, b * -1);
        vstd::arithmetic::div_mod::lemma_div_basics_5(a * -1, b * -1);
        if a == i32::MIN {
            vstd::arithmetic::div_mod::lemma_div_decreases(a * -1, b * -1);
        }
    } else if a < 0 {
        vstd::arithmetic::div_mod::lemma_div_basics_4(a * -1, b);
        vstd::arithmetic::div_mod::lemma_div_basics_5(a * -1, b);
    } else if a > 0 {
        vstd::arithmetic::div_mod::lemma_div_basics_4(a, b * -1);
        vstd::arithmetic::div_mod::lemma_div_basics_5(a, b * -1);
    }
}

} // verus!
