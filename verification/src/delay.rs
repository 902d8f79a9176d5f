use vstd::prelude::*;

verus! {

/// A wait duration between two retry attempts, with millisecond resolution.
///
/// Delays are plain values: they are produced by a delay strategy, handed to
/// the host's timer, and never interpreted by the retry driver itself.
#[derive(Clone, Copy, Debug, PartialEq, Eq, Structural)]
pub struct Delay {
    pub millis: u64,
}

impl Delay {
    /// Builds a delay of the given number of milliseconds.
    pub fn from_millis(millis: u64) -> (d: Delay)
        ensures
            d.millis == millis,
    {
        Delay { millis }
    }

    /// The length of this delay in milliseconds.
    pub fn as_millis(&self) -> (r: u64)
        ensures
            r == self.millis,
    {
        self.millis
    }
}

} // verus!
