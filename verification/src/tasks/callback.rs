//! How what runs on the runtime ended.
use vstd::prelude::*;

verus! {

/// How a callback ended, its panics caught.
pub enum Outcome<T> {
    /// It returned this.
    Returned(T),
    /// It panicked.
    Panicked,
}

/// What came first: a signal that was waited for, or the cancellation of the
/// one that was to learn of it.
#[derive(Debug, Clone, Copy, PartialEq, Eq, Structural)]
pub enum First {
    /// The cancellation.
    Cancelled,
    /// The signal.
    Signal,
}

} // verus!
