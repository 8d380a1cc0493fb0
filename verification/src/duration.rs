//! Durations and the elapsed-time comparison every machine's timing
//! decisions go through.

use vstd::prelude::*;

verus! {

/// Error from comparing two timestamps: the later one was in fact earlier
/// than the one it is measured from (a non-monotonic time source).
#[derive(Clone, Copy, Debug, PartialEq, Eq, Structural)]
pub struct TimeError;

/// A configuration duration, measured in the same ticks as the timestamps
/// the caller passes into `update`.
#[derive(Clone, Copy, Debug, PartialEq, Eq, Structural)]
pub struct Duration {
    pub ticks: u64,
}

impl Duration {
    /// What [`Duration::is_elapsed`] returns: whether `to - from` has
    /// reached this duration, or an error when `to` lies before `from`.
    pub open spec fn spec_is_elapsed(self, from: u64, to: u64) -> Result<bool, TimeError> {
        if to < from {
            Err(TimeError)
        } else {
            Ok(to - from >= self.ticks)
        }
    }

    /// Answers "is `to - from >= self`"; fails if `to < from`.
    pub fn is_elapsed(&self, from: u64, to: u64) -> (r: Result<bool, TimeError>)
        ensures
            r == self.spec_is_elapsed(from, to),
    {
        if to < from {
            Err(TimeError)
        } else {
            Ok(to - from >= self.ticks)
        }
    }
}

} // verus!
