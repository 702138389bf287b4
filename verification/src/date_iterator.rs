//! An open-ended sequence of points in time generated by repeatedly applying
//! one calendar duration from an origin.

use vstd::prelude::*;

use crate::calendar_duration::{spec_nth, CalendarDuration};
use crate::date_time::DateTime;

verus! {

/// A lazy, forward-only sequence of points: the origin, then the origin
/// moved by one step, by two steps, and so on. Each point is computed
/// afresh from the origin, so clamped days do not accumulate drift.
pub struct OpenEndedDateIterator {
    pub from: DateTime,
    pub duration: CalendarDuration,
    pub iterations: i32,
}

/// An open-ended iterator that yields `dt` first, then `dt` moved by one
/// `duration` per step.
pub fn date_iterator_from(dt: DateTime, duration: CalendarDuration) -> (r:
    OpenEndedDateIterator)
    ensures
        r.from == dt,
        r.duration == duration,
        r.iterations == 0,
{
    OpenEndedDateIterator { from: dt, duration, iterations: 0 }
}

impl OpenEndedDateIterator {
    /// Produces the next point of the sequence: the origin moved by as many
    /// steps as have been produced so far. The very first point is the
    /// origin unchanged. Overflow of the step arithmetic ends the sequence.
    pub fn next(&mut self) -> (r: Option<DateTime>)
        requires
            old(self).from.wf(),
            old(self).iterations < i32::MAX,
        ensures
            final(self).from == old(self).from,
            final(self).duration == old(self).duration,
            final(self).iterations == old(self).iterations + 1,
            r == spec_nth(old(self).from, old(self).duration, old(self).iterations as int),
            old(self).iterations == 0 ==> r == Some(old(self).from),
            r matches Some(p) ==> p.wf(),
    {
        let produced = match self.duration.checked_mul(self.iterations) {
            None => None,
            Some(d) => crate::calendar_duration::checked_add(&self.from, &d),
        };
        self.iterations = self.iterations + 1;
        produced
    }
}

} // verus!
