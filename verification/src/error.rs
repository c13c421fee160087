//! Errors that reach the callers of actors and servers.
use vstd::prelude::*;

verus! {

/// Why a request to an actor, or the actor itself, failed.
#[derive(Debug, Clone, Copy, PartialEq, Eq, Structural)]
pub enum ActorError {
    /// A callback panicked while it handled the request.
    Callback,
    /// The initialization callback failed with an error that it did not handle.
    Initialization,
    /// The actor is gone: its mailbox is closed, or it dropped the request.
    Server,
    /// The actor does not handle requests of this kind.
    RequestUnused,
    /// No reply came within the time that the caller allowed.
    RequestTimeout,
}

/// Why a call to a server, or the server itself, failed.
#[derive(Debug, Clone, Copy, PartialEq, Eq, Structural)]
pub enum GenServerError {
    /// A callback panicked while it handled the call.
    Callback,
    /// The initialization callback failed with an error that it did not handle.
    Initialization,
    /// The server is gone: its mailbox is closed, or it dropped the call.
    Server,
    /// The server does not handle calls of this kind.
    CallMsgUnused,
    /// No reply came within the time that the caller allowed.
    CallTimeout,
}

} // verus!
