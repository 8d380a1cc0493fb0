//! The error container shared by every machine's `update`.

use crate::duration::TimeError;
use vstd::prelude::*;

verus! {

/// Why an `update` call was aborted. Any error is surfaced before the
/// machine's state is mutated for that poll, so the caller may simply
/// retry on the next tick.
#[derive(Clone, Copy, Debug, PartialEq, Eq)]
pub enum Error<S> {
    /// Comparing timestamps failed (the caller's clock ran backwards).
    ElapsedTimer(TimeError),
    /// Reading the raw input level failed (a hardware fault).
    InputSwitch(S),
}

} // verus!
