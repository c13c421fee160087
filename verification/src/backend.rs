//! Where an actor or a server runs.
use vstd::prelude::*;

verus! {

/// What runs an actor or a generic server.
///
/// | Backend | Runs on | Best for |
/// |---------|---------|----------|
/// | `Async` | a task of the runtime | non-blocking work |
/// | `Blocking` | the runtime's pool of blocking threads | short blocking work |
/// | `Thread` | a thread of its own | long-running or blocking singletons |
#[derive(Debug, Clone, Copy, PartialEq, Eq, Structural)]
pub enum Backend {
    /// A task of the runtime, which is the default. Tasks run cooperatively:
    /// one that blocks keeps others from running.
    Async,
    /// The runtime's pool of blocking threads, which all blocking tasks share.
    Blocking,
    /// A thread of its own, apart from the runtime.
    Thread,
}

impl Default for Backend {
    fn default() -> (r: Self)
        ensures
            r == Backend::Async,
    {
        Backend::Async
    }
}

} // verus!
