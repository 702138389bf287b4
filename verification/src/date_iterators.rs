//! The full family of date iterators: open-ended, bounded by an exclusive
//! end point, and pairwise over adjacent points, generated by repeatedly
//! applying one calendar duration from an origin.

use vstd::prelude::*;

use crate::calendar_duration::{spec_nth, CalendarDuration};
use crate::date_time::DateTime;

verus! {

/// A lazy, forward-only sequence of points: the origin, then the origin
/// moved by one step, by two steps, and so on. Each point is computed
/// afresh from the origin, so clamped days do not accumulate drift.
#[derive(Debug)]
pub struct OpenEndedDateIterator {
    pub from: DateTime,
    pub duration: CalendarDuration,
    pub iterations: i32,
}

/// A point of the underlying sequence forwarded only while strictly earlier
/// than the bound; the first point at or past the bound ends the sequence.
pub open spec fn spec_bounded(produced: Option<DateTime>, to: DateTime) -> Option<DateTime> {
    match produced {
        Some(dt) => if dt.spec_before(to) {
            Some(dt)
        } else {
            None
        },
        None => None,
    }
}

/// The pair of adjacent points `k` and `k + 1` steps after the origin, or
/// nothing when either of them is not representable.
pub open spec fn spec_nth_pair(from: DateTime, duration: CalendarDuration, k: int) -> Option<
    (DateTime, DateTime),
> {
    match (spec_nth(from, duration, k), spec_nth(from, duration, k + 1)) {
        (Some(a), Some(b)) => Some((a, b)),
        _ => None,
    }
}

impl OpenEndedDateIterator {
    /// Bounds the sequence by an exclusive end point.
    pub fn to(self, to: DateTime) -> (r: ClosedDateIterator)
        ensures
            r.iter == self,
            r.to == to,
    {
        date_iterator_to(self, to)
    }

    /// The point the sequence would produce next, without advancing.
    fn current(&self) -> (r: Option<DateTime>)
        requires
            self.from.wf(),
        ensures
            r == spec_nth(self.from, self.duration, self.iterations as int),
            self.iterations == 0 ==> r == Some(self.from),
            r matches Some(p) ==> p.wf(),
    {
        match self.duration.checked_mul(self.iterations) {
            None => None,
            Some(d) => crate::calendar_duration::checked_add(&self.from, &d),
        }
    }

    /// Produces the next point of the sequence: the origin moved by as many
    /// steps as have been produced so far. The very first point is the
    /// origin unchanged. Overflow of the step arithmetic ends the sequence.
    pub fn next(&mut self) -> (r: Option<DateTime>)
        requires
            old(self).from.wf(),
            old(self).iterations < i32::MAX,
        ensures
            final(self).from == old(self).from,
            final(self).duration == old(self).duration,
            final(self).iterations == old(self).iterations + 1,
            r == spec_nth(old(self).from, old(self).duration, old(self).iterations as int),
            old(self).iterations == 0 ==> r == Some(old(self).from),
            r matches Some(p) ==> p.wf(),
    {
        let produced = self.current();
        self.iterations = self.iterations + 1;
        produced
    }

    /// Turns the sequence into one of adjacent pairs `(point, point after
    /// it)`. The second element of each pair is computed afresh from the
    /// origin, not by adding one step to the first: slicing a range this way
    /// keeps neighbouring slices from overlapping when a day is clamped.
    pub fn pairwise(self) -> (r: OpenEndedPairwiseDateIterator)
        ensures
            r.iter == self,
    {
        OpenEndedPairwiseDateIterator { iter: self }
    }
}

/// The pairwise form of the open-ended sequence: adjacent points, both
/// derived independently from the origin.
#[derive(Debug)]
pub struct OpenEndedPairwiseDateIterator {
    pub iter: OpenEndedDateIterator,
}

impl OpenEndedPairwiseDateIterator {
    /// Produces the next adjacent pair, or nothing when either of its points
    /// overflows.
    pub fn next(&mut self) -> (r: Option<(DateTime, DateTime)>)
        requires
            old(self).iter.from.wf(),
            old(self).iter.iterations < i32::MAX,
        ensures
            final(self).iter.from == old(self).iter.from,
            final(self).iter.duration == old(self).iter.duration,
            final(self).iter.iterations == old(self).iter.iterations + 1,
            r == spec_nth_pair(
                old(self).iter.from,
                old(self).iter.duration,
                old(self).iter.iterations as int,
            ),
            r matches Some(p) ==> p.0.wf() && p.1.wf(),
    {
        match self.iter.next() {
            None => None,
            Some(start) => match self.iter.current() {
                None => None,
                Some(then) => Some((start, then)),
            },
        }
    }
}

/// The underlying sequence truncated at an exclusive end point: points are
/// forwarded only while strictly earlier than `to`.
#[derive(Debug)]
pub struct ClosedDateIterator {
    pub iter: OpenEndedDateIterator,
    pub to: DateTime,
}

impl ClosedDateIterator {
    /// Produces the next point while it lies strictly before the bound.
    pub fn next(&mut self) -> (r: Option<DateTime>)
        requires
            old(self).iter.from.wf(),
            old(self).iter.iterations < i32::MAX,
        ensures
            final(self).to == old(self).to,
            final(self).iter.from == old(self).iter.from,
            final(self).iter.duration == old(self).iter.duration,
            final(self).iter.iterations == old(self).iter.iterations + 1,
            r == spec_bounded(
                spec_nth(
                    old(self).iter.from,
                    old(self).iter.duration,
                    old(self).iter.iterations as int,
                ),
                old(self).to,
            ),
            r matches Some(p) ==> p.wf() && p.spec_before(old(self).to),
    {
        match self.iter.next() {
            None => None,
            Some(dt) => if dt.before(&self.to) {
                Some(dt)
            } else {
                None
            },
        }
    }

    /// The pairwise form of the bounded sequence: pairs are produced while
    /// the pair's first point lies strictly before the bound; the second
    /// point of the last pair may reach past it, closing the final interval.
    pub fn pairwise(self) -> (r: ClosedPairwiseDateIterator)
        ensures
            r.iter.iter == self.iter,
            r.to == self.to,
    {
        ClosedPairwiseDateIterator { iter: OpenEndedPairwiseDateIterator { iter: self.iter }, to: self.to }
    }
}

/// The pairwise form of the bounded sequence.
#[derive(Debug)]
pub struct ClosedPairwiseDateIterator {
    pub iter: OpenEndedPairwiseDateIterator,
    pub to: DateTime,
}

impl ClosedPairwiseDateIterator {
    /// Produces the next adjacent pair while its first point lies strictly
    /// before the bound.
    pub fn next(&mut self) -> (r: Option<(DateTime, DateTime)>)
        requires
            old(self).iter.iter.from.wf(),
            old(self).iter.iter.iterations < i32::MAX,
        ensures
            final(self).to == old(self).to,
            final(self).iter.iter.from == old(self).iter.iter.from,
            final(self).iter.iter.duration == old(self).iter.iter.duration,
            final(self).iter.iter.iterations == old(self).iter.iter.iterations + 1,
            r == (match spec_nth_pair(
                old(self).iter.iter.from,
                old(self).iter.iter.duration,
                old(self).iter.iter.iterations as int,
            ) {
                Some(p) => if p.0.spec_before(old(self).to) {
                    Some(p)
                } else {
                    None
                },
                None => None,
            }),
            r matches Some(p) ==> p.0.wf() && p.1.wf() && p.0.spec_before(old(self).to),
    {
        match self.iter.next() {
            None => None,
            Some(pair) => if pair.0.before(&self.to) {
                Some(pair)
            } else {
                None
            },
        }
    }
}

/// An open-ended iterator that yields `dt` first, then `dt` moved by one
/// `duration` per step.
pub fn date_iterator_from(dt: DateTime, duration: CalendarDuration) -> (r:
    OpenEndedDateIterator)
    ensures
        r.from == dt,
        r.duration == duration,
        r.iterations == 0,
{
    OpenEndedDateIterator { from: dt, duration, iterations: 0 }
}

/// Bounds the given open-ended iterator by an exclusive end point.
pub fn date_iterator_to(iter: OpenEndedDateIterator, to: DateTime) -> (r: ClosedDateIterator)
    ensures
        r.iter == iter,
        r.to == to,
{
    ClosedDateIterator { iter, to }
}

/// An iterator over the points from `from`, one `duration` apart, strictly
/// earlier than `to`.
pub fn date_iterator_from_to(from: DateTime, duration: CalendarDuration, to: DateTime) -> (r:
    ClosedDateIterator)
    ensures
        r.iter.from == from,
        r.iter.duration == duration,
        r.iter.iterations == 0,
        r.to == to,
{
    date_iterator_from(from, duration).to(to)
}

} // verus!
