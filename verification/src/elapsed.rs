//! A fixed-length span of time, measured in nanoseconds, from weeks down to
//! nanoseconds. Unlike a calendar duration it has the same length wherever it
//! is applied.

use vstd::prelude::*;

verus! {

/// Nanoseconds in a microsecond.
pub const NANOS_PER_MICRO: i64 = 1_000;

/// Nanoseconds in a millisecond.
pub const NANOS_PER_MILLI: i64 = 1_000_000;

/// Nanoseconds in a second.
pub const NANOS_PER_SEC: i64 = 1_000_000_000;

/// Nanoseconds in a minute.
pub const NANOS_PER_MINUTE: i64 = 60_000_000_000;

/// Nanoseconds in an hour.
pub const NANOS_PER_HOUR: i64 = 3_600_000_000_000;

/// Nanoseconds in a day of exactly twenty-four hours.
pub const NANOS_PER_DAY: i64 = 86_400_000_000_000;

/// Nanoseconds in a week of exactly seven days.
pub const NANOS_PER_WEEK: i64 = 604_800_000_000_000;

/// A fixed-length span of time: a signed count of nanoseconds.
#[derive(Clone, Copy, Debug, PartialEq, Eq, Structural)]
pub struct Elapsed {
    pub nanos: i64,
}

impl Elapsed {
    /// The empty span.
    pub fn zero() -> (r: Elapsed)
        ensures
            r.nanos == 0,
    {
        Elapsed { nanos: 0 }
    }

    /// A span of the given number of weeks.
    pub fn weeks(weeks: i64) -> (r: Elapsed)
        requires
            i64::MIN <= weeks * NANOS_PER_WEEK <= i64::MAX,
        ensures
            r.nanos == weeks * NANOS_PER_WEEK,
    {
        Elapsed { nanos: weeks * NANOS_PER_WEEK }
    }

    /// A span of the given number of days of exactly twenty-four hours.
    pub fn days(days: i64) -> (r: Elapsed)
        requires
            i64::MIN <= days * NANOS_PER_DAY <= i64::MAX,
        ensures
            r.nanos == days * NANOS_PER_DAY,
    {
        Elapsed { nanos: days * NANOS_PER_DAY }
    }

    /// A span of the given number of hours.
    pub fn hours(hours: i64) -> (r: Elapsed)
        requires
            i64::MIN <= hours * NANOS_PER_HOUR <= i64::MAX,
        ensures
            r.nanos == hours * NANOS_PER_HOUR,
    {
        Elapsed { nanos: hours * NANOS_PER_HOUR }
    }

    /// A span of the given number of minutes.
    pub fn minutes(minutes: i64) -> (r: Elapsed)
        requires
            i64::MIN <= minutes * NANOS_PER_MINUTE <= i64::MAX,
        ensures
            r.nanos == minutes * NANOS_PER_MINUTE,
    {
        Elapsed { nanos: minutes * NANOS_PER_MINUTE }
    }

    /// A span of the given number of seconds.
    pub fn seconds(seconds: i64) -> (r: Elapsed)
        requires
            i64::MIN <= seconds * NANOS_PER_SEC <= i64::MAX,
        ensures
            r.nanos == seconds * NANOS_PER_SEC,
    {
        Elapsed { nanos: seconds * NANOS_PER_SEC }
    }

    /// A span of the given number of milliseconds.
    pub fn milliseconds(milliseconds: i64) -> (r: Elapsed)
        requires
            i64::MIN <= milliseconds * NANOS_PER_MILLI <= i64::MAX,
        ensures
            r.nanos == milliseconds * NANOS_PER_MILLI,
    {
        Elapsed { nanos: milliseconds * NANOS_PER_MILLI }
    }

    /// A span of the given number of microseconds.
    pub fn microseconds(microseconds: i64) -> (r: Elapsed)
        requires
            i64::MIN <= microseconds * NANOS_PER_MICRO <= i64::MAX,
        ensures
            r.nanos == microseconds * NANOS_PER_MICRO,
    {
        Elapsed { nanos: microseconds * NANOS_PER_MICRO }
    }

    /// A span of the given number of nanoseconds.
    pub fn nanoseconds(nanoseconds: i64) -> (r: Elapsed)
        ensures
            r.nanos == nanoseconds,
    {
        Elapsed { nanos: nanoseconds }
    }

    /// The sum of two spans, when it is representable.
    pub open spec fn spec_checked_add(self, other: Elapsed) -> Option<Elapsed> {
        if i64::MIN <= self.nanos + other.nanos <= i64::MAX {
            Some((Elapsed { nanos: (self.nanos + other.nanos) as i64 }))
        } else {
            None
        }
    }

    /// Adds two spans, or returns nothing when the sum does not fit.
    pub fn checked_add(&self, other: &Elapsed) -> (r: Option<Elapsed>)
        ensures
            r == self.spec_checked_add(*other),
    {
        match self.nanos.checked_add(other.nanos) {
            Some(n) => Some(Elapsed { nanos: n }),
            None => None,
        }
    }

    /// The span scaled by an integer factor, when it is representable.
    pub open spec fn spec_checked_mul(self, rhs: int) -> Option<Elapsed> {
        if i64::MIN <= self.nanos * rhs <= i64::MAX {
            Some((Elapsed { nanos: (self.nanos * rhs) as i64 }))
        } else {
            None
        }
    }

    /// Scales the span by an integer factor, or returns nothing when the
    /// product does not fit.
    pub fn checked_mul(&self, rhs: i32) -> (r: Option<Elapsed>)
        ensures
            r == self.spec_checked_mul(rhs as int),
    {
        match self.nanos.checked_mul(rhs as i64) {
            Some(n) => Some(Elapsed { nanos: n }),
            None => None,
        }
    }

    /// The sum of two spans; the caller guarantees it fits.
    pub fn add(self, rhs: Elapsed) -> (r: Elapsed)
        requires
            i64::MIN <= self.nanos + rhs.nanos <= i64::MAX,
        ensures
            r.nanos == self.nanos + rhs.nanos,
    {
        Elapsed { nanos: self.nanos + rhs.nanos }
    }

    /// The difference of two spans; the caller guarantees it fits.
    pub fn sub(self, rhs: Elapsed) -> (r: Elapsed)
        requires
            i64::MIN <= self.nanos - rhs.nanos <= i64::MAX,
        ensures
            r.nanos == self.nanos - rhs.nanos,
    {
        Elapsed { nanos: self.nanos - rhs.nanos }
    }

    /// The span scaled by an integer factor; the caller guarantees it fits.
    pub fn mul(self, rhs: i32) -> (r: Elapsed)
        requires
            i64::MIN <= self.nanos * rhs <= i64::MAX,
        ensures
            r.nanos == self.nanos * rhs,
    {
        Elapsed { nanos: self.nanos * (rhs as i64) }
    }

    /// The span divided by an integer factor, rounding toward zero.
    pub fn div(self, rhs: i32) -> (r: Elapsed)
        requires
            rhs != 0,
            !(self.nanos == i64::MIN && rhs == -1),
        ensures
            r.nanos == spec_trunc_div(self.nanos as int, rhs as int),
    {
        proof {
            lemma_trunc_div_in_range(self.nanos as int, rhs as int);
        }
        match self.nanos.checked_div(rhs as i64) {
            Some(n) => Elapsed { nanos: n },
            None => Elapsed { nanos: 0 },
        }
    }

    /// The negated span; the caller guarantees it fits.
    pub fn neg(self) -> (r: Elapsed)
        requires
            self.nanos != i64::MIN,
        ensures
            r.nanos == -self.nanos,
    {
        Elapsed { nanos: -self.nanos }
    }
}

/// Integer division rounding toward zero, as the host's division operator
/// computes it on signed integers.
pub open spec fn spec_trunc_div(a: int, b: int) -> int {
    if a == 0 {
        0
    } else if a > 0 && b > 0 {
        a / b
    } else if a < 0 && b < 0 {
        (a * -1) / (b * -1)
    } else if a < 0 {
        ((a * -1) / b) * -1
    } else {
        (a / (b * -1)) * -1
    }
}

/// A truncating quotient of a representable dividend stays representable,
/// except for the smallest value divided by minus one.
proof fn lemma_trunc_div_in_range(a: int, b: int)
    requires
        i64::MIN <= a <= i64::MAX,
        b != 0,
        !(a == i64::MIN && b == -1),
    ensures
        i64::MIN <= spec_trunc_div(a, b) <= i64::MAX,
{
    if a > 0 && b > 0 {
        vstd::arithmetic::div_mod::lemma_div_basics_4(a, b);
        vstd::arithmetic::div_mod::lemma_div_basics_5(a, b);
    } else if a < 0 && b < 0 {
        vstd::arithmetic::div_mod::lemma_div_basics_4(a * -1, b * -1);
        vstd::arithmetic::div_mod::lemma_div_basics_5(a * -1, b * -1);
        if a == i64::MIN {
            vstd::arithmetic::div_mod::lemma_div_decreases(a * -1, b * -1);
        }
    } else if a < 0 {
        vstd::arithmetic::div_mod::lemma_div_basics_4(a * -1, b);
        vstd::arithmetic::div_mod::lemma_div_basics_5(a * -1, b);
    } else if a > 0 {
        vstd::arithmetic::div_mod::lemma_div_basics_4(a, b * -1);
        vstd::arithmetic::div_mod::lemma_div_basics_5(a, b * -1);
    }
}

} // verus!
