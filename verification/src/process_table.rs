//! The processes that are there, and who learns of whose end.
use crate::channel::{Cancelled, Looked, Posted};
use crate::link::{MonitorRef, SystemMessage};
use crate::pid::{ExitReason, Pid};
use crate::sequences;
use tokio::sync::mpsc::UnboundedSender;
use tokio_util::sync::CancellationToken;
use vstd::prelude::*;

verus! {

/// Why a link or a monitor could not be made.
#[derive(Debug, Clone, Copy, PartialEq, Eq, Structural)]
pub enum LinkError {
    /// There is no such process.
    ProcessNotFound(Pid),
    /// A process cannot be linked with itself.
    SelfLink,
}

/// Brings system messages to one process.
pub trait SystemMessageSender {
    /// Where the system messages of the process go.
    spec fn system_tx(&self) -> UnboundedSender<SystemMessage>;

    /// The token whose cancellation ends the process.
    spec fn token(&self) -> CancellationToken;

    /// Tells the process that one that it monitors has ended.
    fn send_down(&self, pid: Pid, monitor_ref: MonitorRef, reason: ExitReason) -> (r: Posted<
        SystemMessage,
    >)
        ensures
            r.to() == self.system_tx(),
            r.message() == (SystemMessage::Down { pid, monitor_ref, reason }),
    ;

    /// Tells the process that one that it is linked with has ended.
    fn send_exit(&self, pid: Pid, reason: ExitReason) -> (r: Posted<SystemMessage>)
        ensures
            r.to() == self.system_tx(),
            r.message() == (SystemMessage::Exit { pid, reason }),
    ;

    /// Makes the process end.
    fn kill(&self, reason: ExitReason) -> (r: Cancelled)
        ensures
            r.token() == self.token(),
    ;

    /// Whether the process has not been made to end, by its token. One that can
    /// be shown to have been made to end before is not alive.
    fn is_alive(&self, before: Option<&Cancelled>) -> (r: Liveness)
        ensures
            r matches Liveness::Found(looked) && looked.token() == self.token(),
            before matches Some(cancelled) && cancelled.token() == self.token() ==> !r.alive(),
    ;
}

/// What was found when it was asked whether a process is alive.
pub enum Liveness {
    /// There is no such process.
    Absent,
    /// It is there, and its token was looked at.
    Found(Looked),
}

/// What a process is to learn of the end of another.
#[allow(inconsistent_fields)]
pub enum Notice {
    /// `to` is told that `pid`, with which it is linked, has ended.
    Exit {
        /// The process that learns of it.
        to: Pid,
        /// The process that ended.
        pid: Pid,
        /// Why.
        reason: ExitReason,
    },
    /// `to` ends because a process with which it is linked has crashed.
    Kill {
        /// The process that ends.
        to: Pid,
        /// Why the other ended.
        reason: ExitReason,
    },
    /// `to` is told that `pid`, which it monitors, has ended.
    Down {
        /// The process that learns of it.
        to: Pid,
        /// The process that ended.
        pid: Pid,
        /// The monitor that reports it.
        monitor_ref: MonitorRef,
        /// Why.
        reason: ExitReason,
    },
}

/// The process that a notice is for.
pub open spec fn recipient(notice: Notice) -> Pid {
    match notice {
        Notice::Exit { to, .. } => to,
        Notice::Kill { to, .. } => to,
        Notice::Down { to, .. } => to,
    }
}

/// Shows that a notice was brought to its process.
pub enum Receipt {
    /// A system message was posted.
    Posted(Posted<SystemMessage>),
    /// The process's token was cancelled.
    Cancelled(Cancelled),
}

/// A notice that was brought to its process.
pub struct Delivered {
    /// The notice.
    pub notice: Notice,
    /// Shows that it was brought.
    pub receipt: Receipt,
}

/// Whether the notice was brought to its process as it should be: `Exit` and
/// `Down` as the system message of that name, `Kill` by cancelling the token.
pub open spec fn carried_out<S: SystemMessageSender>(
    table: Processes<S>,
    delivered: Delivered,
) -> bool {
    match (delivered.notice, delivered.receipt) {
        (Notice::Exit { to, pid, reason }, Receipt::Posted(posted)) => posted.to()
            == table.alive[to].sender.system_tx() && posted.message() == (SystemMessage::Exit {
            pid,
            reason,
        }),
        (Notice::Kill { to, reason }, Receipt::Cancelled(cancelled)) => cancelled.token()
            == table.alive[to].sender.token(),
        (Notice::Down { to, pid, monitor_ref, reason }, Receipt::Posted(posted)) => posted.to()
            == table.alive[to].sender.system_tx() && posted.message() == (SystemMessage::Down {
            pid,
            monitor_ref,
            reason,
        }),
        _ => false,
    }
}

/// One process of a table.
struct Entry<S> {
    pid: Pid,
    sender: S,
    trap_exit: bool,
}

/// One monitor of a table.
#[derive(Clone, Copy)]
struct Watch {
    monitor_ref: MonitorRef,
    from: Pid,
    target: Pid,
}

/// The processes that are there, their links and their monitors.
pub struct ProcessTable<S> {
    entries: Vec<Entry<S>>,
    // Each link stands here in both directions.
    links: Vec<(Pid, Pid)>,
    watches: Vec<Watch>,
    next_monitor: u64,
}

/// What a table knows of one process.
pub struct Process<S> {
    /// Brings system messages to it.
    pub sender: S,
    /// Whether it is told of the end of those it is linked with, where it
    /// would otherwise end with them.
    pub trap_exit: bool,
}

/// What a table says.
#[verifier::ext_equal]
pub struct Processes<S> {
    /// The processes that are there.
    pub alive: Map<Pid, Process<S>>,
    /// Who is linked with whom, each link in both directions.
    pub links: Set<(Pid, Pid)>,
    /// The monitors: who watches, and whom.
    pub monitors: Map<MonitorRef, (Pid, Pid)>,
    /// The number of the next monitor.
    pub next_monitor: nat,
}

impl<S> Processes<S> {
    /// Whether there is such a process.
    pub open spec fn has(self, pid: Pid) -> bool {
        self.alive.dom().contains(pid)
    }

    /// Whether the two processes are linked.
    pub open spec fn linked(self, a: Pid, b: Pid) -> bool {
        self.links.contains((a, b))
    }

    /// Whether the process is there and traps exits.
    pub open spec fn traps(self, pid: Pid) -> bool {
        self.has(pid) && self.alive[pid].trap_exit
    }

    /// Links go both ways, join two different processes and, like monitors,
    /// only those that are there; and every monitor has a number of its own.
    pub open spec fn wf(self) -> bool {
        &&& forall|a: Pid, b: Pid| self.linked(a, b) ==> #[trigger] self.linked(b, a)
        &&& forall|a: Pid, b: Pid| #[trigger] self.linked(a, b) ==> a != b && self.has(a) && self.has(b)
        &&& forall|m: MonitorRef| #[trigger]
            self.monitors.dom().contains(m) ==> self.has(self.monitors[m].0) && self.has(
                self.monitors[m].1,
            ) && m.spec_id() < self.next_monitor
    }

    /// No process.
    pub open spec fn none() -> Self {
        Processes {
            alive: Map::empty(),
            links: Set::empty(),
            monitors: Map::empty(),
            next_monitor: 0,
        }
    }

    /// One more process, which does not trap exits.
    pub open spec fn with_process(self, pid: Pid, sender: S) -> Self {
        Processes { alive: self.alive.insert(pid, Process { sender, trap_exit: false }), ..self }
    }

    /// Without the process, its links, its monitors and those of it.
    pub open spec fn without_process(self, pid: Pid) -> Self {
        Processes {
            alive: self.alive.remove(pid),
            links: Set::new(|pair: (Pid, Pid)| self.links.contains(pair) && pair.0 != pid && pair.1 != pid),
            monitors: Map::new(
                |m: MonitorRef|
                    self.monitors.dom().contains(m) && self.monitors[m].0 != pid
                        && self.monitors[m].1 != pid,
                |m: MonitorRef| self.monitors[m],
            ),
            ..self
        }
    }

    /// With the two processes linked.
    pub open spec fn with_link(self, a: Pid, b: Pid) -> Self {
        Processes { links: self.links.insert((a, b)).insert((b, a)), ..self }
    }

    /// With the two processes not linked.
    pub open spec fn without_link(self, a: Pid, b: Pid) -> Self {
        Processes { links: self.links.remove((a, b)).remove((b, a)), ..self }
    }

    /// With one more monitor.
    pub open spec fn with_monitor(self, m: MonitorRef, from: Pid, target: Pid) -> Self {
        Processes {
            monitors: self.monitors.insert(m, (from, target)),
            next_monitor: self.next_monitor + 1,
            ..self
        }
    }

    /// Without the monitor.
    pub open spec fn without_monitor(self, m: MonitorRef) -> Self {
        Processes { monitors: self.monitors.remove(m), ..self }
    }

    /// With the process, if it is there, trapping exits or not.
    pub open spec fn with_trap(self, pid: Pid, trap: bool) -> Self {
        if self.has(pid) {
            Processes {
                alive: self.alive.insert(
                    pid,
                    Process { sender: self.alive[pid].sender, trap_exit: trap },
                ),
                ..self
            }
        } else {
            self
        }
    }

    /// Why the two processes cannot be linked, if they cannot.
    pub open spec fn link_error(self, a: Pid, b: Pid) -> Option<LinkError> {
        if a == b {
            Some(LinkError::SelfLink)
        } else if !self.has(a) {
            Some(LinkError::ProcessNotFound(a))
        } else if !self.has(b) {
            Some(LinkError::ProcessNotFound(b))
        } else {
            None
        }
    }

    /// Why the one process cannot monitor the other, if it cannot.
    pub open spec fn monitor_error(self, from: Pid, target: Pid) -> Option<LinkError> {
        if !self.has(from) {
            Some(LinkError::ProcessNotFound(from))
        } else if !self.has(target) {
            Some(LinkError::ProcessNotFound(target))
        } else {
            None
        }
    }

    /// Whether the notice is due when the process ends for this reason.
    ///
    /// Those that are linked with it and trap exits are told; those that do
    /// not end with it, unless it stopped of its own accord; those that monitor
    /// it are told.
    pub open spec fn due(self, pid: Pid, reason: ExitReason, notice: Notice) -> bool {
        match notice {
            Notice::Exit { to, pid: ended, reason: why } => self.linked(pid, to) && self.traps(to)
                && ended == pid && why == reason,
            Notice::Kill { to, reason: why } => self.linked(pid, to) && !self.traps(to) && !(
            reason is Normal) && why == reason,
            Notice::Down { to, pid: ended, monitor_ref, reason: why } =>
                self.monitors.dom().contains(monitor_ref) && self.monitors[monitor_ref] == (to, pid)
                && ended == pid && why == reason && to != pid,
        }
    }
}

/// A table stays in order when a process joins.
pub proof fn law_register_keeps_order<S>(table: Processes<S>, pid: Pid, sender: S)
    requires
        table.wf(),
        !table.has(pid),
    ensures
        table.with_process(pid, sender).wf(),
{
    let after = table.with_process(pid, sender);
    assert(forall|a: Pid, b: Pid| #[trigger] after.linked(a, b) <==> table.linked(a, b));
}

/// A table stays in order when a process leaves.
pub proof fn law_unregister_keeps_order<S>(table: Processes<S>, pid: Pid)
    requires
        table.wf(),
    ensures
        table.without_process(pid).wf(),
{
    let after = table.without_process(pid);
    assert(forall|a: Pid, b: Pid|
        #[trigger] after.linked(a, b) <==> table.linked(a, b) && a != pid && b != pid);
    assert(forall|m: MonitorRef| #[trigger]
        after.monitors.dom().contains(m) ==> table.monitors.dom().contains(m));
}

/// A table stays in order when two processes are linked that can be.
pub proof fn law_link_keeps_order<S>(table: Processes<S>, a: Pid, b: Pid)
    requires
        table.wf(),
        table.link_error(a, b) is None,
    ensures
        table.with_link(a, b).wf(),
{
    let after = table.with_link(a, b);
    assert(forall|x: Pid, y: Pid|
        #[trigger] after.linked(x, y) <==> table.linked(x, y) || (x, y) == (a, b) || (x, y) == (b, a));
}

/// A table stays in order when a link is taken away.
pub proof fn law_unlink_keeps_order<S>(table: Processes<S>, a: Pid, b: Pid)
    requires
        table.wf(),
    ensures
        table.without_link(a, b).wf(),
{
    let after = table.without_link(a, b);
    assert(forall|x: Pid, y: Pid|
        #[trigger] after.linked(x, y) <==> table.linked(x, y) && (x, y) != (a, b) && (x, y) != (b, a));
}

/// A table stays in order when a monitor is added.
pub proof fn law_monitor_keeps_order<S>(table: Processes<S>, m: MonitorRef, from: Pid, target: Pid)
    requires
        table.wf(),
        table.monitor_error(from, target) is None,
        m.spec_id() == table.next_monitor,
    ensures
        table.with_monitor(m, from, target).wf(),
{
    let after = table.with_monitor(m, from, target);
    assert(forall|a: Pid, b: Pid| #[trigger] after.linked(a, b) <==> table.linked(a, b));
}

/// A table stays in order when a monitor is taken away.
pub proof fn law_demonitor_keeps_order<S>(table: Processes<S>, m: MonitorRef)
    requires
        table.wf(),
    ensures
        table.without_monitor(m).wf(),
{
    let after = table.without_monitor(m);
    assert(forall|a: Pid, b: Pid| #[trigger] after.linked(a, b) <==> table.linked(a, b));
    assert(forall|n: MonitorRef| #[trigger]
        after.monitors.dom().contains(n) ==> table.monitors.dom().contains(n));
}

/// A table stays in order when a process begins or ceases to trap exits.
pub proof fn law_trap_keeps_order<S>(table: Processes<S>, pid: Pid, trap: bool)
    requires
        table.wf(),
    ensures
        table.with_trap(pid, trap).wf(),
{
    let after = table.with_trap(pid, trap);
    assert(forall|a: Pid, b: Pid| #[trigger] after.linked(a, b) <==> table.linked(a, b));
}

/// The position of the process among the entries.
spec fn entry_of<S>(entries: Seq<Entry<S>>, pid: Pid) -> int {
    choose|i: int| 0 <= i < entries.len() && (#[trigger] entries[i]).pid == pid
}

/// The processes of the entries.
spec fn alive_in<S>(entries: Seq<Entry<S>>) -> Map<Pid, Process<S>> {
    Map::new(
        |pid: Pid| exists|i: int| 0 <= i < entries.len() && (#[trigger] entries[i]).pid == pid,
        |pid: Pid|
            {
                let entry = entries[entry_of(entries, pid)];
                Process { sender: entry.sender, trap_exit: entry.trap_exit }
            },
    )
}

/// The position of the monitor among the watches.
spec fn watch_of(watches: Seq<Watch>, m: MonitorRef) -> int {
    choose|i: int| 0 <= i < watches.len() && (#[trigger] watches[i]).monitor_ref == m
}

/// The monitors of the watches.
spec fn monitors_in(watches: Seq<Watch>) -> Map<MonitorRef, (Pid, Pid)> {
    Map::new(
        |m: MonitorRef| exists|i: int| 0 <= i < watches.len() && (#[trigger] watches[i]).monitor_ref == m,
        |m: MonitorRef|
            {
                let watch = watches[watch_of(watches, m)];
                (watch.from, watch.target)
            },
    )
}

/// No process stands twice among the entries.
spec fn one_entry_each<S>(entries: Seq<Entry<S>>) -> bool {
    forall|i: int, j: int|
        0 <= i < entries.len() && 0 <= j < entries.len() && (#[trigger] entries[i]).pid == (
        #[trigger] entries[j]).pid ==> i == j
}

/// No monitor stands twice among the watches.
spec fn one_watch_each(watches: Seq<Watch>) -> bool {
    forall|i: int, j: int|
        0 <= i < watches.len() && 0 <= j < watches.len() && (#[trigger] watches[i]).monitor_ref == (
        #[trigger] watches[j]).monitor_ref ==> i == j
}

impl<S> View for ProcessTable<S> {
    type V = Processes<S>;

    closed spec fn view(&self) -> Processes<S> {
        Processes {
            alive: alive_in(self.entries@),
            links: self.links@.to_set(),
            monitors: monitors_in(self.watches@),
            next_monitor: self.next_monitor as nat,
        }
    }
}

impl<S> ProcessTable<S> {
    /// Whether the table is in order.
    pub closed spec fn wf(self) -> bool {
        &&& one_entry_each(self.entries@)
        &&& self.links@.no_duplicates()
        &&& one_watch_each(self.watches@)
        &&& self@.wf()
    }

    /// What a table in order says is in order: links go both ways, and nobody is
    /// linked with, or monitors, a process that is not there.
    pub proof fn law_what_a_table_says_is_in_order(self)
        requires
            self.wf(),
        ensures
            self@.wf(),
    {
    }

    /// A table without processes.
    pub fn new() -> (r: Self)
        ensures
            r.wf(),
            r@ == Processes::<S>::none(),
    {
        let r = ProcessTable {
            entries: Vec::new(),
            links: Vec::new(),
            watches: Vec::new(),
            next_monitor: 0,
        };
        proof {
            assert(r@.alive =~= Map::empty());
            assert(r@.links =~= Set::empty());
            assert(r@.monitors =~= Map::empty());
        }
        r
    }

    /// Where the process stands among the entries.
    fn find(&self, pid: Pid) -> (r: Option<usize>)
        ensures
            match r {
                Some(i) => i < self.entries.len() && self.entries[i as int].pid == pid && self@.has(
                    pid,
                ),
                None => !self@.has(pid),
            },
    {
        let mut i: usize = 0;
        while i < self.entries.len()
            invariant
                i <= self.entries.len(),
                forall|j: int| 0 <= j < i ==> (#[trigger] self.entries@[j]).pid != pid,
            decreases self.entries.len() - i,
        {
            if self.entries[i].pid == pid {
                assert(self.entries@[i as int].pid == pid);
                return Some(i);
            }
            i = i + 1;
        }
        None
    }

    /// Whether there is such a process.
    pub fn contains(&self, pid: Pid) -> (r: bool)
        ensures
            r <==> self@.has(pid),
    {
        self.find(pid).is_some()
    }

    /// Adds a process.
    pub fn register(&mut self, pid: Pid, sender: S)
        requires
            old(self).wf(),
            !old(self)@.has(pid),
        ensures
            final(self).wf(),
            final(self)@ == old(self)@.with_process(pid, sender),
    {
        let ghost before = self.entries@;
        self.entries.push(Entry { pid, sender, trap_exit: false });
        proof {
            let after = self.entries@;
            assert forall|p: Pid| alive_in(after).dom().contains(p) <==> alive_in(before).insert(
                pid,
                Process { sender, trap_exit: false },
            ).dom().contains(p) by {
                if alive_in(before).dom().contains(p) {
                    let i = entry_of(before, p);
                    assert(after[i].pid == p);
                }
                assert(after[before.len() as int].pid == pid);
                if alive_in(after).dom().contains(p) && p != pid {
                    let i = entry_of(after, p);
                    assert(before[i].pid == p);
                }
            }
            assert forall|i: int, j: int|
                0 <= i < after.len() && 0 <= j < after.len() && (#[trigger] after[i]).pid == (
                #[trigger] after[j]).pid implies i == j by {
                if i < before.len() {
                    assert(before[i].pid == after[i].pid);
                }
                if j < before.len() {
                    assert(before[j].pid == after[j].pid);
                }
            }
            assert forall|p: Pid| #[trigger] alive_in(after).dom().contains(p) implies alive_in(
                after,
            )[p] == alive_in(before).insert(pid, Process { sender, trap_exit: false })[p] by {
                let i = entry_of(after, p);
                if i < before.len() {
                    assert(before[i].pid == p);
                    assert(entry_of(before, p) == i);
                }
            }
            assert(alive_in(after) =~= alive_in(before).insert(
                pid,
                Process { sender, trap_exit: false },
            ));
            assert(self@ == old(self)@.with_process(pid, sender));
            law_register_keeps_order(old(self)@, pid, sender);
        }
    }

    /// Whether the two processes are linked.
    fn is_linked(&self, a: Pid, b: Pid) -> (r: bool)
        ensures
            r <==> self@.linked(a, b),
    {
        let mut i: usize = 0;
        while i < self.links.len()
            invariant
                i <= self.links.len(),
                forall|j: int| 0 <= j < i ==> #[trigger] self.links@[j] != (a, b),
            decreases self.links.len() - i,
        {
            if self.links[i].0 == a && self.links[i].1 == b {
                assert(self.links@[i as int] == (a, b));
                return true;
            }
            i = i + 1;
        }
        false
    }

    /// Links two processes with each other.
    pub fn link(&mut self, a: Pid, b: Pid) -> (r: Result<(), LinkError>)
        requires
            old(self).wf(),
        ensures
            final(self).wf(),
            match old(self)@.link_error(a, b) {
                Some(error) => r == Err::<(), LinkError>(error) && final(self)@ == old(self)@,
                None => r == Ok::<(), LinkError>(()) && final(self)@ == old(self)@.with_link(a, b),
            },
    {
        if a == b {
            return Err(LinkError::SelfLink);
        }
        if !self.contains(a) {
            return Err(LinkError::ProcessNotFound(a));
        }
        if !self.contains(b) {
            return Err(LinkError::ProcessNotFound(b));
        }
        if !self.is_linked(a, b) {
            let ghost before = self.links@;
            assert(!old(self)@.linked(b, a));
            self.links.push((a, b));
            self.links.push((b, a));
            proof {
                let after = self.links@;
                assert(after[before.len() as int] == (a, b));
                assert(after[before.len() as int + 1] == (b, a));
                assert forall|pair: (Pid, Pid)| after.contains(pair) <==> before.contains(pair)
                    || pair == (a, b) || pair == (b, a) by {
                    if before.contains(pair) {
                        let i = choose|i: int| 0 <= i < before.len() && before[i] == pair;
                        assert(after[i] == pair);
                    }
                }
                assert forall|i: int, j: int|
                    0 <= i < after.len() && 0 <= j < after.len() && i != j implies after[i]
                    != after[j] by {
                    if i < before.len() {
                        assert(before.contains(before[i]));
                    }
                    if j < before.len() {
                        assert(before.contains(before[j]));
                    }
                }
            }
        }
        proof {
            assert(old(self)@.linked(b, a) == old(self)@.linked(a, b));
            assert(self@.links =~= old(self)@.with_link(a, b).links);
            assert(self@ == old(self)@.with_link(a, b));
            law_link_keeps_order(old(self)@, a, b);
        }
        Ok(())
    }

    /// Takes the link between two processes away, if there is one.
    pub fn unlink(&mut self, a: Pid, b: Pid)
        requires
            old(self).wf(),
        ensures
            final(self).wf(),
            final(self)@ == old(self)@.without_link(a, b),
    {
        let ghost keep = |pair: (Pid, Pid)|
            if pair != (a, b) && pair != (b, a) {
                Some(pair)
            } else {
                None
            };
        let mut kept: Vec<(Pid, Pid)> = Vec::new();
        let mut i: usize = 0;
        while i < self.links.len()
            invariant
                i <= self.links.len(),
                kept@ == self.links@.take(i as int).filter_map(keep),
                keep == (|pair: (Pid, Pid)|
                    if pair != (a, b) && pair != (b, a) {
                        Some(pair)
                    } else {
                        None
                    }),
            decreases self.links.len() - i,
        {
            let pair = self.links[i];
            proof {
                sequences::lemma_pick_next(self.links@, keep, i as int);
            }
            if !((pair.0 == a && pair.1 == b) || (pair.0 == b && pair.1 == a)) {
                kept.push(pair);
            }
            i = i + 1;
        }
        assert(self.links@.take(i as int) =~= self.links@);
        proof {
            sequences::lemma_picked_distinct(self.links@, keep);
            assert forall|pair: (Pid, Pid)| kept@.contains(pair) <==> self.links@.contains(pair)
                && pair != (a, b) && pair != (b, a) by {
                sequences::lemma_picked(self.links@, keep, pair);
            }
        }
        self.links = kept;
        proof {
            assert(self@.links =~= old(self)@.without_link(a, b).links);
            law_unlink_keeps_order(old(self)@, a, b);
        }
    }

    /// The processes that are linked with this one.
    pub fn get_links(&self, pid: Pid) -> (r: Vec<Pid>)
        requires
            self.wf(),
        ensures
            r@.no_duplicates(),
            forall|other: Pid| r@.contains(other) <==> self@.linked(pid, other),
    {
        let ghost pick = |pair: (Pid, Pid)|
            if pair.0 == pid {
                Some(pair.1)
            } else {
                None
            };
        let mut others: Vec<Pid> = Vec::new();
        let mut i: usize = 0;
        while i < self.links.len()
            invariant
                i <= self.links.len(),
                others@ == self.links@.take(i as int).filter_map(pick),
                pick == (|pair: (Pid, Pid)|
                    if pair.0 == pid {
                        Some(pair.1)
                    } else {
                        None
                    }),
            decreases self.links.len() - i,
        {
            proof {
                sequences::lemma_pick_next(self.links@, pick, i as int);
            }
            if self.links[i].0 == pid {
                others.push(self.links[i].1);
            }
            i = i + 1;
        }
        assert(self.links@.take(i as int) =~= self.links@);
        proof {
            sequences::lemma_picked_distinct(self.links@, pick);
            assert forall|other: Pid| others@.contains(other) <==> self@.linked(pid, other) by {
                sequences::lemma_picked(self.links@, pick, other);
                if self@.linked(pid, other) {
                    let i = choose|i: int| 0 <= i < self.links@.len() && self.links@[i] == (pid, other);
                    assert(pick(self.links@[i]) == Some(other));
                }
            }
        }
        others
    }

    /// Lets a process trap exits, or not. Nothing changes if it is not there.
    pub fn set_trap_exit(&mut self, pid: Pid, trap: bool)
        requires
            old(self).wf(),
        ensures
            final(self).wf(),
            final(self)@ == old(self)@.with_trap(pid, trap),
    {
        if let Some(i) = self.find(pid) {
            let ghost before = self.entries@;
            self.entries[i].trap_exit = trap;
            proof {
                let after = self.entries@;
                assert(forall|j: int| 0 <= j < after.len() ==> (#[trigger] after[j]).pid == before[j].pid);
                assert(forall|j: int| 0 <= j < after.len() ==> (#[trigger] before[j]).pid == after[j].pid);
                assert forall|p: Pid| #[trigger] alive_in(after).dom().contains(p) implies alive_in(
                    after,
                )[p] == old(self)@.with_trap(pid, trap).alive[p] by {
                    let j = entry_of(after, p);
                    assert(before[j].pid == p);
                    assert(entry_of(before, p) == j);
                }
                assert(self@.alive =~= old(self)@.with_trap(pid, trap).alive);
            }
        }
        proof {
            law_trap_keeps_order(old(self)@, pid, trap);
        }
    }

    /// Whether the process is there and traps exits.
    pub fn is_trapping_exit(&self, pid: Pid) -> (r: bool)
        requires
            self.wf(),
        ensures
            r == self@.traps(pid),
    {
        match self.find(pid) {
            Some(i) => {
                assert(entry_of(self.entries@, pid) == i);
                self.entries[i].trap_exit
            },
            None => false,
        }
    }

    /// Whether the table has a number for another monitor.
    pub fn can_monitor(&self) -> (r: bool)
        ensures
            r <==> self@.next_monitor < u64::MAX,
    {
        self.next_monitor < u64::MAX
    }

    /// Lets one process monitor another.
    pub fn monitor(&mut self, from: Pid, target: Pid) -> (r: Result<MonitorRef, LinkError>)
        requires
            old(self).wf(),
            old(self)@.next_monitor < u64::MAX,
        ensures
            final(self).wf(),
            match old(self)@.monitor_error(from, target) {
                Some(error) => r == Err::<MonitorRef, LinkError>(error) && final(self)@ == old(
                    self,
                )@,
                None => r matches Ok(m) && m.spec_id() == old(self)@.next_monitor && final(self)@
                    == old(self)@.with_monitor(m, from, target),
            },
    {
        if !self.contains(from) {
            return Err(LinkError::ProcessNotFound(from));
        }
        if !self.contains(target) {
            return Err(LinkError::ProcessNotFound(target));
        }
        let monitor_ref = MonitorRef::with_id(self.next_monitor);
        let ghost before = self.watches@;
        self.watches.push(Watch { monitor_ref, from, target });
        self.next_monitor = self.next_monitor + 1;
        proof {
            let after = self.watches@;
            assert forall|i: int| 0 <= i < before.len() implies (#[trigger] before[i]).monitor_ref
                != monitor_ref by {
                assert(old(self)@.monitors.dom().contains(before[i].monitor_ref));
            }
            assert(forall|i: int| 0 <= i < before.len() ==> #[trigger] after[i] == before[i]);
            assert(forall|i: int| 0 <= i < before.len() ==> after[i] == #[trigger] before[i]);
            assert(after[before.len() as int].monitor_ref == monitor_ref);
            assert forall|m: MonitorRef| #[trigger]
                monitors_in(after).dom().contains(m) implies monitors_in(after)[m] == monitors_in(
                before,
            ).insert(monitor_ref, (from, target))[m] by {
                let i = watch_of(after, m);
                if i < before.len() {
                    assert(before[i].monitor_ref == m);
                    assert(watch_of(before, m) == i);
                }
            }
            assert(self@.monitors =~= monitors_in(before).insert(monitor_ref, (from, target)));
            assert(self@ == old(self)@.with_monitor(monitor_ref, from, target));
            law_monitor_keeps_order(old(self)@, monitor_ref, from, target);
        }
        Ok(monitor_ref)
    }

    /// Takes a monitor away, if it is still there.
    pub fn demonitor(&mut self, monitor_ref: MonitorRef)
        requires
            old(self).wf(),
        ensures
            final(self).wf(),
            final(self)@ == old(self)@.without_monitor(monitor_ref),
    {
        let ghost keep = |watch: Watch|
            if watch.monitor_ref != monitor_ref {
                Some(watch)
            } else {
                None
            };
        let mut kept: Vec<Watch> = Vec::new();
        let mut i: usize = 0;
        while i < self.watches.len()
            invariant
                i <= self.watches.len(),
                kept@ == self.watches@.take(i as int).filter_map(keep),
                keep == (|watch: Watch|
                    if watch.monitor_ref != monitor_ref {
                        Some(watch)
                    } else {
                        None
                    }),
            decreases self.watches.len() - i,
        {
            let watch = self.watches[i];
            proof {
                sequences::lemma_pick_next(self.watches@, keep, i as int);
            }
            if watch.monitor_ref != monitor_ref {
                kept.push(watch);
            }
            i = i + 1;
        }
        assert(self.watches@.take(i as int) =~= self.watches@);
        proof {
            lemma_watches_kept(self.watches@, keep);
            assert(monitors_in(kept@) =~= monitors_in(self.watches@).remove(monitor_ref));
        }
        self.watches = kept;
        proof {
            assert(self@ == old(self)@.without_monitor(monitor_ref));
            law_demonitor_keeps_order(old(self)@, monitor_ref);
        }
    }
}

/// What the other end of a link is to learn when a process ends.
spec fn link_notice<S>(table: Processes<S>, pid: Pid, reason: ExitReason) -> spec_fn(
    (Pid, Pid),
) -> Option<Notice> {
    |pair: (Pid, Pid)|
        if pair.0 != pid {
            None
        } else if table.traps(pair.1) {
            Some(Notice::Exit { to: pair.1, pid, reason })
        } else if !(reason is Normal) {
            Some(Notice::Kill { to: pair.1, reason })
        } else {
            None
        }
}

/// What the watcher is to learn when a process ends.
spec fn watch_notice(pid: Pid, reason: ExitReason) -> spec_fn(Watch) -> Option<Notice> {
    |watch: Watch|
        if watch.target == pid && watch.from != pid {
            Some(
                Notice::Down { to: watch.from, pid, monitor_ref: watch.monitor_ref, reason },
            )
        } else {
            None
        }
}

/// The links that stay when a process ends.
spec fn link_stays(pid: Pid) -> spec_fn((Pid, Pid)) -> Option<(Pid, Pid)> {
    |pair: (Pid, Pid)|
        if pair.0 != pid && pair.1 != pid {
            Some(pair)
        } else {
            None
        }
}

/// The watches that stay when a process ends.
spec fn watch_stays(pid: Pid) -> spec_fn(Watch) -> Option<Watch> {
    |watch: Watch|
        if watch.from != pid && watch.target != pid {
            Some(watch)
        } else {
            None
        }
}

impl<S> ProcessTable<S> {
    /// The notices that are due when a process ends.
    fn notices(&self, pid: Pid, reason: &ExitReason) -> (r: Vec<Notice>)
        requires
            self.wf(),
        ensures
            r@.no_duplicates(),
            forall|notice: Notice| r@.contains(notice) <==> self@.due(pid, *reason, notice),
    {
        let ghost from_link = link_notice(self@, pid, *reason);
        let ghost from_watch = watch_notice(pid, *reason);
        let mut notices: Vec<Notice> = Vec::new();
        let mut i: usize = 0;
        while i < self.links.len()
            invariant
                self.wf(),
                i <= self.links.len(),
                from_link == link_notice(self@, pid, *reason),
                notices@ == self.links@.take(i as int).filter_map(from_link),
            decreases self.links.len() - i,
        {
            proof {
                sequences::lemma_pick_next(self.links@, from_link, i as int);
            }
            let to = self.links[i].1;
            if self.links[i].0 == pid {
                if self.is_trapping_exit(to) {
                    notices.push(Notice::Exit { to, pid, reason: reason.clone() });
                } else if !reason.is_normal() {
                    notices.push(Notice::Kill { to, reason: reason.clone() });
                }
            }
            i = i + 1;
        }
        assert(self.links@.take(i as int) =~= self.links@);
        let ghost first = notices@;
        let mut j: usize = 0;
        assert(first + self.watches@.take(0).filter_map(from_watch) =~= first);
        while j < self.watches.len()
            invariant
                j <= self.watches.len(),
                from_watch == watch_notice(pid, *reason),
                notices@ == first + self.watches@.take(j as int).filter_map(from_watch),
            decreases self.watches.len() - j,
        {
            let watch = self.watches[j];
            let ghost before = notices@;
            proof {
                sequences::lemma_pick_next(self.watches@, from_watch, j as int);
            }
            if watch.target == pid && watch.from != pid {
                notices.push(
                    Notice::Down {
                        to: watch.from,
                        pid,
                        monitor_ref: watch.monitor_ref,
                        reason: reason.clone(),
                    },
                );
            }
            assert(notices@ =~= first + self.watches@.take(j as int + 1).filter_map(from_watch));
            j = j + 1;
        }
        assert(self.watches@.take(j as int) =~= self.watches@);
        proof {
            self.lemma_notices(pid, *reason);
        }
        notices
    }

    /// Takes a process that ended out of the table, with its links, its monitors
    /// and those of it, and says who is to learn of its end.
    pub fn exit(&mut self, pid: Pid, reason: &ExitReason) -> (r: Vec<Notice>)
        requires
            old(self).wf(),
        ensures
            final(self).wf(),
            final(self)@ == old(self)@.without_process(pid),
            r@.no_duplicates(),
            forall|notice: Notice| r@.contains(notice) <==> old(self)@.due(pid, *reason, notice),
    {
        let notices = self.notices(pid, reason);
        let ghost stays = link_stays(pid);
        let mut links: Vec<(Pid, Pid)> = Vec::new();
        let mut i: usize = 0;
        while i < self.links.len()
            invariant
                i <= self.links.len(),
                stays == link_stays(pid),
                links@ == self.links@.take(i as int).filter_map(stays),
            decreases self.links.len() - i,
        {
            let pair = self.links[i];
            proof {
                sequences::lemma_pick_next(self.links@, stays, i as int);
            }
            if pair.0 != pid && pair.1 != pid {
                links.push(pair);
            }
            i = i + 1;
        }
        assert(self.links@.take(i as int) =~= self.links@);
        let ghost watched = watch_stays(pid);
        let mut watches: Vec<Watch> = Vec::new();
        let mut j: usize = 0;
        while j < self.watches.len()
            invariant
                j <= self.watches.len(),
                watched == watch_stays(pid),
                watches@ == self.watches@.take(j as int).filter_map(watched),
            decreases self.watches.len() - j,
        {
            let watch = self.watches[j];
            proof {
                sequences::lemma_pick_next(self.watches@, watched, j as int);
            }
            if watch.from != pid && watch.target != pid {
                watches.push(watch);
            }
            j = j + 1;
        }
        assert(self.watches@.take(j as int) =~= self.watches@);
        self.links = links;
        self.watches = watches;
        if let Some(k) = self.find(pid) {
            self.entries.remove(k);
            proof {
                lemma_entry_removed(old(self).entries@, k as int);
            }
        }
        proof {
            let before = *old(self);
            sequences::lemma_picked_distinct(before.links@, stays);
            assert forall|pair: (Pid, Pid)| links@.contains(pair) <==> before.links@.contains(pair)
                && pair.0 != pid && pair.1 != pid by {
                sequences::lemma_picked(before.links@, stays, pair);
            }
            lemma_watches_kept(before.watches@, watched);
            assert(self@.alive =~= before@.without_process(pid).alive);
            assert(self@.links =~= before@.without_process(pid).links);
            assert(self@.monitors =~= before@.without_process(pid).monitors);
            assert(self@ == before@.without_process(pid));
            law_unregister_keeps_order(before@, pid);
        }
        notices
    }

    /// What links and watches give is what is due.
    proof fn lemma_notices(self, pid: Pid, reason: ExitReason)
        requires
            self.wf(),
        ensures
            ({
                let notices = self.links@.filter_map(link_notice(self@, pid, reason))
                    + self.watches@.filter_map(watch_notice(pid, reason));
                &&& notices.no_duplicates()
                &&& forall|notice: Notice|
                    notices.contains(notice) <==> self@.due(pid, reason, notice)
            }),
    {
        let from_link = link_notice(self@, pid, reason);
        let from_watch = watch_notice(pid, reason);
        let first = self.links@.filter_map(from_link);
        let second = self.watches@.filter_map(from_watch);
        let notices = first + second;
        sequences::lemma_picked_distinct(self.links@, from_link);
        assert(self.watches@.no_duplicates()) by {
            assert forall|i: int, j: int|
                0 <= i < self.watches@.len() && 0 <= j < self.watches@.len() && i
                    != j implies self.watches@[i] != self.watches@[j] by {
                if self.watches@[i] == self.watches@[j] {
                    assert(self.watches@[i].monitor_ref == self.watches@[j].monitor_ref);
                }
            }
        }
        sequences::lemma_picked_distinct(self.watches@, from_watch);
        assert forall|notice: Notice| notices.contains(notice) <==> first.contains(notice)
            || second.contains(notice) by {
            if first.contains(notice) {
                let i = choose|i: int| 0 <= i < first.len() && first[i] == notice;
                assert(notices[i] == notice);
            }
            if second.contains(notice) {
                let i = choose|i: int| 0 <= i < second.len() && second[i] == notice;
                assert(notices[first.len() + i] == notice);
            }
        }
        assert forall|notice: Notice| first.contains(notice) <==> !(notice is Down) && self@.due(
            pid,
            reason,
            notice,
        ) by {
            sequences::lemma_picked(self.links@, from_link, notice);
            if first.contains(notice) {
                let i = choose|i: int|
                    0 <= i < self.links@.len() && from_link(#[trigger] self.links@[i]) == Some(
                        notice,
                    );
                assert(self.links@.contains(self.links@[i]));
                assert(self@.linked(pid, self.links@[i].1));
            }
            if !(notice is Down) && self@.due(pid, reason, notice) {
                let to = recipient(notice);
                let i = choose|i: int| 0 <= i < self.links@.len() && self.links@[i] == (pid, to);
                assert(from_link(self.links@[i]) == Some(notice));
            }
        }
        assert forall|notice: Notice| second.contains(notice) <==> notice is Down && self@.due(
            pid,
            reason,
            notice,
        ) by {
            sequences::lemma_picked(self.watches@, from_watch, notice);
            if second.contains(notice) {
                let i = choose|i: int|
                    0 <= i < self.watches@.len() && from_watch(#[trigger] self.watches@[i]) == Some(
                        notice,
                    );
                assert(watch_of(self.watches@, self.watches@[i].monitor_ref) == i);
            }
            if notice is Down && self@.due(pid, reason, notice) {
                let i = watch_of(self.watches@, notice->Down_monitor_ref);
                assert(from_watch(self.watches@[i]) == Some(notice));
            }
        }
        assert forall|i: int, j: int|
            0 <= i < notices.len() && 0 <= j < notices.len() && i != j implies notices[i]
            != notices[j] by {
            if i < first.len() {
                assert(first.contains(first[i]));
            } else {
                assert(second.contains(second[i - first.len()]));
            }
            if j < first.len() {
                assert(first.contains(first[j]));
            } else {
                assert(second.contains(second[j - first.len()]));
            }
        }
    }
}

/// Taking an entry out takes its process out.
proof fn lemma_entry_removed<S>(entries: Seq<Entry<S>>, k: int)
    requires
        one_entry_each(entries),
        0 <= k < entries.len(),
    ensures
        one_entry_each(entries.remove(k)),
        alive_in(entries.remove(k)) == alive_in(entries).remove(entries[k].pid),
{
    let rest = entries.remove(k);
    let pid = entries[k].pid;
    assert(forall|i: int| 0 <= i < k ==> #[trigger] rest[i] == entries[i]);
    assert(forall|i: int| k <= i < rest.len() ==> #[trigger] rest[i] == entries[i + 1]);
    assert forall|p: Pid| #[trigger] alive_in(rest).dom().contains(p) implies alive_in(
        entries,
    ).dom().contains(p) && p != pid && alive_in(rest)[p] == alive_in(entries)[p] by {
        let i = entry_of(rest, p);
        let j = if i < k {
            i
        } else {
            i + 1
        };
        assert(entries[j].pid == p);
        assert(entry_of(entries, p) == j);
    }
    assert forall|p: Pid| #[trigger] alive_in(entries).dom().contains(p) && p
        != pid implies alive_in(rest).dom().contains(p) by {
        let j = entry_of(entries, p);
        let i = if j < k {
            j
        } else {
            j - 1
        };
        assert(rest[i].pid == p);
    }
    assert(alive_in(rest) =~= alive_in(entries).remove(pid));
}

/// Whether a process counts as alive, from whether its token has not been
/// cancelled if there is such a process.
pub fn counts_as_alive(not_cancelled: Option<bool>) -> (r: bool)
    ensures
        r == (not_cancelled == Some(true)),
{
    match not_cancelled {
        Some(alive) => alive,
        None => false,
    }
}

impl Liveness {
    /// Whether the process is there and was not found to have been made to end.
    pub open spec fn alive(self) -> bool {
        self matches Liveness::Found(looked) && !looked.cancelled()
    }

    /// Whether the process is there and was not found to have been made to end.
    pub fn is_alive(&self) -> (r: bool)
        ensures
            r == self.alive(),
    {
        match self {
            Liveness::Absent => counts_as_alive(None),
            Liveness::Found(looked) => counts_as_alive(Some(!looked.found_cancelled())),
        }
    }
}

impl<S: SystemMessageSender> ProcessTable<S> {
    /// Whether the process is there and has not been made to end, by its token.
    /// One that can be shown to have been made to end before is not alive.
    pub fn is_alive(&self, pid: Pid, before: Option<&Cancelled>) -> (r: Liveness)
        requires
            self.wf(),
        ensures
            match r {
                Liveness::Absent => !self@.has(pid),
                Liveness::Found(looked) => self@.has(pid) && looked.token()
                    == self@.alive[pid].sender.token(),
            },
            before matches Some(cancelled) && cancelled.token() == self@.alive[pid].sender.token()
                ==> !r.alive(),
    {
        match self.find(pid) {
            Some(i) => {
                assert(entry_of(self.entries@, pid) == i);
                self.entries[i].sender.is_alive(before)
            },
            None => Liveness::Absent,
        }
    }

    /// Brings a notice to the process that it is for.
    fn deliver(&self, notice: Notice) -> (r: Delivered)
        requires
            self.wf(),
            self@.has(recipient(notice)),
        ensures
            r.notice == notice,
            carried_out(self@, r),
    {
        let to = match &notice {
            Notice::Exit { to, .. } => *to,
            Notice::Kill { to, .. } => *to,
            Notice::Down { to, .. } => *to,
        };
        let i: usize = match self.find(to) {
            Some(i) => i,
            None => 0,
        };
        assert(entry_of(self.entries@, to) == i);
        let sender = &self.entries[i].sender;
        let receipt = match &notice {
            Notice::Exit { to, pid, reason } => Receipt::Posted(
                sender.send_exit(*pid, reason.clone()),
            ),
            Notice::Kill { to, reason } => Receipt::Cancelled(sender.kill(reason.clone())),
            Notice::Down { to, pid, monitor_ref, reason } => Receipt::Posted(
                sender.send_down(*pid, *monitor_ref, reason.clone()),
            ),
        };
        Delivered { notice, receipt }
    }

    /// Takes a process that ended out of the table, with its links, its monitors
    /// and those of it, and brings every notice that is due to its process.
    pub fn unregister(&mut self, pid: Pid, reason: ExitReason) -> (r: Vec<Delivered>)
        requires
            old(self).wf(),
        ensures
            final(self).wf(),
            final(self)@ == old(self)@.without_process(pid),
            notices_of(r@).no_duplicates(),
            forall|notice: Notice|
                notices_of(r@).contains(notice) <==> old(self)@.due(pid, reason, notice),
            forall|i: int| 0 <= i < r@.len() ==> carried_out(old(self)@, #[trigger] r@[i]),
    {
        let mut notices = self.exit(pid, &reason);
        let ghost all = notices@;
        let mut delivered: Vec<Delivered> = Vec::new();
        assert(notices@ + notices_of(delivered@).reverse() =~= all);
        while notices.len() > 0
            invariant
                self.wf(),
                old(self).wf(),
                self@ == old(self)@.without_process(pid),
                forall|notice: Notice| all.contains(notice) <==> old(self)@.due(pid, reason, notice),
                notices@ + notices_of(delivered@).reverse() == all,
                forall|i: int|
                    0 <= i < delivered@.len() ==> carried_out(old(self)@, #[trigger] delivered@[i]),
            decreases notices.len(),
        {
            let ghost left = notices@;
            let ghost before = delivered@;
            if let Some(notice) = notices.pop() {
                assert(all[left.len() - 1] == notice);
                assert(all.contains(notice));
                proof {
                    lemma_recipient_is_there(old(self)@, pid, reason, notice);
                }
                let done = self.deliver(notice);
                delivered.push(done);
                assert(notices_of(delivered@) =~= notices_of(before).push(notice));
                assert(notices@ + notices_of(delivered@).reverse() =~= all);
            }
        }
        proof {
            let got = notices_of(delivered@);
            assert(all =~= got.reverse());
            assert forall|i: int, j: int|
                0 <= i < got.len() && 0 <= j < got.len() && i != j implies got[i] != got[j] by {
                assert(got[i] == all[got.len() - 1 - i]);
                assert(got[j] == all[got.len() - 1 - j]);
            }
            assert forall|notice: Notice| got.contains(notice) <==> all.contains(notice) by {
                if got.contains(notice) {
                    let i = choose|i: int| 0 <= i < got.len() && got[i] == notice;
                    assert(all[got.len() - 1 - i] == notice);
                }
                if all.contains(notice) {
                    let i = choose|i: int| 0 <= i < all.len() && all[i] == notice;
                    assert(got[got.len() - 1 - i] == notice);
                }
            }
        }
        delivered
    }
}

/// The notices that were brought.
pub open spec fn notices_of(delivered: Seq<Delivered>) -> Seq<Notice> {
    delivered.map_values(|d: Delivered| d.notice)
}

/// Whoever is to learn of the end of a process is there, and stays.
proof fn lemma_recipient_is_there<S>(
    table: Processes<S>,
    pid: Pid,
    reason: ExitReason,
    notice: Notice,
)
    requires
        table.wf(),
        table.due(pid, reason, notice),
    ensures
        table.without_process(pid).has(recipient(notice)),
        table.without_process(pid).alive[recipient(notice)] == table.alive[recipient(notice)],
{
    match notice {
        Notice::Exit { to, .. } => {
            assert(table.linked(pid, to));
        },
        Notice::Kill { to, .. } => {
            assert(table.linked(pid, to));
        },
        Notice::Down { monitor_ref, .. } => {
            assert(table.monitors.dom().contains(monitor_ref));
        },
    }
}

/// Keeping some of the watches keeps the monitors that they stand for.
proof fn lemma_watches_kept(watches: Seq<Watch>, keep: spec_fn(Watch) -> Option<Watch>)
    requires
        one_watch_each(watches),
        forall|watch: Watch| #[trigger] keep(watch) matches Some(same) ==> same == watch,
    ensures
        one_watch_each(watches.filter_map(keep)),
        forall|m: MonitorRef| #[trigger]
            monitors_in(watches.filter_map(keep)).dom().contains(m) <==> monitors_in(
                watches,
            ).dom().contains(m) && keep(watches[watch_of(watches, m)]) is Some,
        forall|m: MonitorRef| #[trigger]
            monitors_in(watches.filter_map(keep)).dom().contains(m) ==> monitors_in(
                watches.filter_map(keep),
            )[m] == monitors_in(watches)[m],
{
    let kept = watches.filter_map(keep);
    assert(watches.no_duplicates()) by {
        assert forall|i: int, j: int|
            0 <= i < watches.len() && 0 <= j < watches.len() && i != j implies watches[i]
            != watches[j] by {
            if watches[i] == watches[j] {
                assert(watches[i].monitor_ref == watches[j].monitor_ref);
            }
        }
    }
    sequences::lemma_picked_distinct(watches, keep);
    assert forall|k: int| 0 <= k < kept.len() implies exists|i: int|
        0 <= i < watches.len() && #[trigger] watches[i] == #[trigger] kept[k] && keep(watches[i])
            is Some by {
        sequences::lemma_picked(watches, keep, kept[k]);
        assert(kept.contains(kept[k]));
        let i = choose|i: int| 0 <= i < watches.len() && keep(#[trigger] watches[i]) == Some(kept[k]);
        assert(watches[i] == kept[k]);
    }
    assert forall|i: int, j: int|
        0 <= i < kept.len() && 0 <= j < kept.len() && (#[trigger] kept[i]).monitor_ref == (
        #[trigger] kept[j]).monitor_ref implies i == j by {
        let x = choose|x: int| 0 <= x < watches.len() && watches[x] == kept[i];
        let y = choose|y: int| 0 <= y < watches.len() && watches[y] == kept[j];
        assert(watches[x].monitor_ref == watches[y].monitor_ref);
    }
    assert forall|m: MonitorRef| #[trigger]
        monitors_in(kept).dom().contains(m) <==> monitors_in(watches).dom().contains(m) && keep(
        watches[watch_of(watches, m)],
    ) is Some by {
        if monitors_in(kept).dom().contains(m) {
            let k = watch_of(kept, m);
            let i = choose|i: int|
                0 <= i < watches.len() && #[trigger] watches[i] == kept[k] && keep(watches[i])
                    is Some;
            assert(watches[i].monitor_ref == m);
            assert(watch_of(watches, m) == i);
        }
        if monitors_in(watches).dom().contains(m) && keep(watches[watch_of(watches, m)]) is Some {
            let i = watch_of(watches, m);
            sequences::lemma_picked(watches, keep, watches[i]);
            assert(keep(watches[i]) == Some(watches[i]));
            let k = choose|k: int| 0 <= k < kept.len() && kept[k] == watches[i];
            assert(kept[k].monitor_ref == m);
        }
    }
    assert forall|m: MonitorRef| #[trigger] monitors_in(kept).dom().contains(m) implies monitors_in(
        kept,
    )[m] == monitors_in(watches)[m] by {
        let k = watch_of(kept, m);
        let i = choose|i: int|
            0 <= i < watches.len() && #[trigger] watches[i] == kept[k] && keep(watches[i]) is Some;
        assert(watches[i].monitor_ref == m);
        assert(watch_of(watches, m) == i);
    }
}

} // verus!
