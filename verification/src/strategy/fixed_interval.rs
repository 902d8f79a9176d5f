use vstd::prelude::*;
use crate::delay::Delay;
use crate::strategy::DelaySequence;

verus! {

/// A delay strategy that yields the same delay forever.
///
/// A retry driver composed with a bare fixed interval retries indefinitely on
/// persistent failure; cap it with [`DelaySequence::take`] to bound the number
/// of retries.
#[derive(Clone)]
pub struct FixedInterval {
    pub delay: Delay,
}

impl FixedInterval {
    /// Constructs a new fixed interval strategy.
    pub fn new(delay: Delay) -> (r: FixedInterval)
        ensures
            r.delay == delay,
    {
        FixedInterval { delay }
    }

    /// Constructs a fixed interval strategy from a number of milliseconds.
    pub fn from_millis(millis: u64) -> (r: FixedInterval)
        ensures
            r.delay.millis == millis,
    {
        FixedInterval { delay: Delay { millis } }
    }
}

impl DelaySequence for FixedInterval {
    open spec fn next_spec(&self) -> Option<(Delay, Self)> {
        Some((self.delay, *self))
    }

    fn next(&mut self) -> (r: Option<Delay>) {
        Some(self.delay)
    }
}

/// A fixed interval never exhausts: it can yield any number of delays.
pub proof fn lemma_fixed_interval_never_exhausts(strategy: FixedInterval, count: nat)
    ensures
        crate::strategy::yields_at_least(strategy, count),
    decreases count,
{
    if count > 0 {
        lemma_fixed_interval_never_exhausts(strategy, (count - 1) as nat);
    }
}

} // verus!
