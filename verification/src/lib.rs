//! A duration type that is aware of calendar months and years, together with
//! arithmetic that applies such a duration to a civil point in time, and lazy
//! sequence generators driven by repeated application of one duration.
//!
//! The underlying calendar (validity of a day within a month, shifting a point
//! by a fixed span of time) is supplied by the `chrono` crate behind a small
//! set of trusted wrappers; every rule layered on top of it is verified.

use vstd::prelude::*;

pub mod calendar_duration;
pub mod date_iterator;
pub mod date_iterators;
pub mod date_time;
pub mod elapsed;

pub use calendar_duration::{add, add_months, add_years, checked_add, CalendarDuration};
pub use date_time::DateTime;
pub use elapsed::Elapsed;

verus! {

/// The Gregorian leap-year rule: every fourth year, except every hundredth,
/// except every four-hundredth.
pub open spec fn spec_is_leap_year(year: int) -> bool {
    year % 4 == 0 && (year % 100 != 0 || year % 400 == 0)
}

/// Number of days in the given one-based month of the given year.
pub open spec fn spec_last_day_of_month(year: int, month: int) -> int {
    if month == 2 {
        if spec_is_leap_year(year) {
            29
        } else {
            28
        }
    } else if month == 4 || month == 6 || month == 9 || month == 11 {
        30
    } else {
        31
    }
}

/// Relies on chrono's `NaiveDate::from_ymd_opt`: February 29 exists exactly
/// for the Gregorian leap years within chrono's representable year range.
#[verifier::external_body]
fn february_29_exists(year: i32) -> (r: bool)
    ensures
        r == (crate::date_time::MIN_YEAR <= year <= crate::date_time::MAX_YEAR
            && spec_is_leap_year(year as int)),
{
    chrono::NaiveDate::from_ymd_opt(year, 2, 29).is_some()
}

/// Whether the given year is a leap year, delegated to the calendar library's
/// date validity check. Years outside the representable range have no
/// February 29 and are reported as common years.
pub fn is_leap_year(year: i32) -> (r: bool)
    ensures
        r == (crate::date_time::MIN_YEAR <= year <= crate::date_time::MAX_YEAR
            && spec_is_leap_year(year as int)),
{
    february_29_exists(year)
}

/// The last valid day of the given one-based month.
pub fn last_day_of_month(year: i32, month: u32) -> (r: u32)
    requires
        crate::date_time::MIN_YEAR <= year <= crate::date_time::MAX_YEAR,
        1 <= month <= 12,
    ensures
        r == spec_last_day_of_month(year as int, month as int),
{
    if month == 2 {
        if is_leap_year(year) {
            29
        } else {
            28
        }
    } else if month == 4 || month == 6 || month == 9 || month == 11 {
        30
    } else {
        31
    }
}

/// The last valid day of the given zero-based month.
pub fn last_day_of_month_0(year: i32, month_0: u32) -> (r: u32)
    requires
        crate::date_time::MIN_YEAR <= year <= crate::date_time::MAX_YEAR,
        month_0 <= 11,
    ensures
        r == spec_last_day_of_month(year as int, month_0 + 1),
{
    last_day_of_month(year, month_0 + 1)
}

} // verus!
