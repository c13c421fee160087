//! What processes learn of one another: monitors and system messages.
use crate::pid::{ExitReason, Pid};
use vstd::prelude::*;

verus! {

/// Names one monitor, so that it can be cancelled.
#[derive(Debug, Clone, Copy, PartialEq, Eq, Hash, Structural)]
pub struct MonitorRef(u64);

impl MonitorRef {
    /// The number behind the reference.
    pub closed spec fn spec_id(self) -> u64 {
        self.0
    }

    /// The reference with the number `id`.
    pub(crate) fn with_id(id: u64) -> (r: Self)
        ensures
            r.spec_id() == id,
    {
        MonitorRef(id)
    }

    /// The number behind the reference.
    pub fn id(&self) -> (r: u64)
        ensures
            r == self.spec_id(),
    {
        self.0
    }
}

/// What the system tells a process, apart from its ordinary messages.
#[derive(Debug)]
pub enum SystemMessage {
    /// A process that it monitors has ended.
    Down {
        /// The process that ended.
        pid: Pid,
        /// The monitor that reports it.
        monitor_ref: MonitorRef,
        /// Why it ended.
        reason: ExitReason,
    },
    /// A process that it is linked with has ended, and it traps exits.
    Exit {
        /// The process that ended.
        pid: Pid,
        /// Why it ended.
        reason: ExitReason,
    },
    /// A timer has fired.
    Timeout,
}

/// A reference is its number: different references have different numbers.
pub proof fn law_a_reference_is_its_number(a: MonitorRef, b: MonitorRef)
    ensures
        a.spec_id() == b.spec_id() <==> a == b,
{
}

} // verus!
