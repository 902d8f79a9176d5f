//! Delay strategies: lazy producers of the wait durations between retries.

use vstd::prelude::*;
use crate::delay::Delay;

mod fixed_interval;

pub use fixed_interval::FixedInterval;
pub use fixed_interval::lemma_fixed_interval_never_exhausts;

verus! {

/// A stateful cursor over a possibly infinite sequence of [`Delay`] values.
///
/// Each call to [`DelaySequence::next`] either yields one delay and advances
/// the cursor, or reports exhaustion and leaves the cursor untouched — so
/// exhaustion is permanent.  The whole behaviour of an implementation is
/// captured by its [`DelaySequence::next_spec`] function: `None` means the
/// sequence is exhausted, `Some((d, s))` means the next call yields `d` and
/// leaves the cursor in state `s`.
pub trait DelaySequence: Sized {
    /// The delay yielded by the next call, if any, together with the cursor
    /// state left behind by that call.
    spec fn next_spec(&self) -> Option<(Delay, Self)>;

    /// Yields the next delay, or `None` once the sequence is exhausted.
    fn next(&mut self) -> (r: Option<Delay>)
        ensures
            match old(self).next_spec() {
                None => r is None && *final(self) == *old(self),
                Some((d, s)) => r == Some(d) && *final(self) == s,
            },
    ;

    /// Caps this sequence to at most `limit` delays; with `limit == 0` the
    /// resulting sequence is empty.
    fn take(self, limit: usize) -> (r: Take<Self>)
        ensures
            r.inner == self,
            r.remaining == limit,
    {
        Take { inner: self, remaining: limit }
    }

    /// Post-processes every delay of this sequence with `transform`, leaving
    /// the length of the sequence unchanged.
    fn map<T: DelayTransform>(self, transform: T) -> (r: MapDelay<Self, T>)
        ensures
            r.inner == self,
            r.transform == transform,
    {
        MapDelay { inner: self, transform }
    }
}

/// A pure, per-delay post-processing step for use with
/// [`DelaySequence::map`], such as capping each delay at a maximum.
///
/// The transform must be pure: the result is a function of the transform and
/// the delay alone, stated by [`DelayTransform::apply_spec`].
pub trait DelayTransform: Sized {
    /// The delay that `apply` turns `delay` into.
    spec fn apply_spec(&self, delay: Delay) -> Delay;

    /// Transforms one delay.
    fn apply(&self, delay: Delay) -> (r: Delay)
        ensures
            r == self.apply_spec(delay),
    ;
}

/// A transform that caps each delay at a fixed maximum.
pub struct MaxDelay {
    pub max: Delay,
}

impl DelayTransform for MaxDelay {
    open spec fn apply_spec(&self, delay: Delay) -> Delay {
        if delay.millis > self.max.millis {
            self.max
        } else {
            delay
        }
    }

    fn apply(&self, delay: Delay) -> (r: Delay) {
        if delay.millis > self.max.millis {
            self.max
        } else {
            delay
        }
    }
}

/// A delay sequence whose every delay is post-processed by a transform.
pub struct MapDelay<S, T> {
    pub inner: S,
    pub transform: T,
}

impl<S: DelaySequence, T: DelayTransform> DelaySequence for MapDelay<S, T> {
    open spec fn next_spec(&self) -> Option<(Delay, Self)> {
        match self.inner.next_spec() {
            None => None,
            Some((d, s)) => Some(
                (
                    self.transform.apply_spec(d),
                    MapDelay { inner: s, transform: self.transform },
                ),
            ),
        }
    }

    fn next(&mut self) -> (r: Option<Delay>) {
        match self.inner.next() {
            None => None,
            Some(d) => Some(self.transform.apply(d)),
        }
    }
}

/// A delay sequence cut off after a fixed number of delays.
#[derive(Clone)]
pub struct Take<S> {
    pub inner: S,
    pub remaining: usize,
}

impl<S: DelaySequence> DelaySequence for Take<S> {
    open spec fn next_spec(&self) -> Option<(Delay, Self)> {
        if self.remaining == 0 {
            None
        } else {
            match self.inner.next_spec() {
                None => None,
                Some((d, s)) => Some(
                    (d, Take { inner: s, remaining: (self.remaining - 1) as usize }),
                ),
            }
        }
    }

    fn next(&mut self) -> (r: Option<Delay>) {
        if self.remaining == 0 {
            None
        } else {
            match self.inner.next() {
                None => None,
                Some(d) => {
                    self.remaining = self.remaining - 1;
                    Some(d)
                },
            }
        }
    }
}

/// Holds when `strategy` yields exactly the delays in `delays` and is
/// exhausted immediately afterwards.
pub open spec fn yields_exactly<S: DelaySequence>(strategy: S, delays: Seq<Delay>) -> bool
    decreases delays.len(),
{
    if delays.len() == 0 {
        strategy.next_spec() is None
    } else {
        match strategy.next_spec() {
            None => false,
            Some((d, s)) => d == delays[0] && yields_exactly(s, delays.drop_first()),
        }
    }
}

/// Holds when `strategy` can yield at least `count` delays before exhausting.
pub open spec fn yields_at_least<S: DelaySequence>(strategy: S, count: nat) -> bool
    decreases count,
{
    count == 0 || match strategy.next_spec() {
        None => false,
        Some((d, s)) => yields_at_least(s, (count - 1) as nat),
    }
}

} // verus!
