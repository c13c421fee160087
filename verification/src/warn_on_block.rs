//! Finding tasks that block the runtime.
use vstd::prelude::*;

verus! {

/// How long a task may run before it yields, in nanoseconds: ten milliseconds.
pub const BLOCKING_THRESHOLD_NANOS: u128 = 10_000_000;

/// A task that is warned of where it blocks.
pub struct WarnOnBlocking<F> {
    /// The task itself.
    pub inner: F,
}

impl<F> WarnOnBlocking<F> {
    /// Watches over a task.
    pub fn new(inner: F) -> (r: Self)
        ensures
            r.inner == inner,
    {
        WarnOnBlocking { inner }
    }
}

/// Whether a task that ran for so long without yielding blocked the runtime.
pub fn is_blocking(elapsed_nanos: u128) -> (r: bool)
    ensures
        r == (elapsed_nanos > BLOCKING_THRESHOLD_NANOS),
        r <==> elapsed_nanos > 10 * 1_000_000,
{
    elapsed_nanos > BLOCKING_THRESHOLD_NANOS
}

} // verus!
