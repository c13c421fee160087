//! Handles of actors, and the node on which actors live.
use crate::channel::{
    answer, cancel, look_at, mailbox, post, reply_channel, Answered, AwaitedReply, Cancelled,
    Mailbox, Posted,
};
use crate::error::ActorError;
use crate::link::{MonitorRef, SystemMessage};
use crate::pid::{ExitReason, HasPid, Pid, PidAllocator};
use crate::process_table::{
    self, Delivered, LinkError, Liveness, Notice, ProcessTable, Processes, SystemMessageSender,
};
use crate::registry::{self, Registry, RegistryError};
use crate::tasks::actor::{Actor, ActorInMsg};
use crate::tasks::actor_loop::{Command, Event, Lifecycle};
use crate::tasks::callback::First;
use tokio::sync::mpsc::UnboundedSender;
use tokio_util::sync::CancellationToken;
use vstd::prelude::*;

verus! {

/// How long a caller waits for a reply if it does not say otherwise, in
/// seconds.
pub const DEFAULT_CALL_TIMEOUT_SECS: u64 = 5;

/// Handle of a running actor.
///
/// Through it messages are sent to the actor and its identifier is had.
/// Handles are cheap to clone and can be shared across tasks.
#[derive(Debug)]
#[verifier::reject_recursive_types(G)]
pub struct ActorRef<G: Actor + 'static> {
    /// The sending end of the actor's mailbox.
    pub tx: UnboundedSender<ActorInMsg<G>>,
    /// Which actor it is.
    pub identity: ActorIdentity,
}

/// Which actor it is: its identifier, its token and where its system messages
/// go.
#[derive(Debug)]
pub struct ActorIdentity {
    pid: Pid,
    cancellation_token: CancellationToken,
    system_tx: UnboundedSender<SystemMessage>,
}

impl ActorIdentity {
    /// The actor's identifier.
    pub closed spec fn pid(self) -> Pid {
        self.pid
    }

    /// The actor's token.
    pub closed spec fn token(self) -> CancellationToken {
        self.cancellation_token
    }

    /// Where the actor's system messages go.
    pub closed spec fn system_tx(self) -> UnboundedSender<SystemMessage> {
        self.system_tx
    }
}

impl Clone for ActorIdentity {
    fn clone(&self) -> (r: Self)
        ensures
            r == *self,
    {
        ActorIdentity {
            pid: self.pid,
            cancellation_token: self.cancellation_token.clone(),
            system_tx: self.system_tx.clone(),
        }
    }
}

/// Brings system messages to an actor.
pub struct ActorSystemSender {
    system_tx: UnboundedSender<SystemMessage>,
    cancellation_token: CancellationToken,
}

impl SystemMessageSender for ActorSystemSender {
    closed spec fn system_tx(&self) -> UnboundedSender<SystemMessage> {
        self.system_tx
    }

    closed spec fn token(&self) -> CancellationToken {
        self.cancellation_token
    }

    fn send_down(&self, pid: Pid, monitor_ref: MonitorRef, reason: ExitReason) -> Posted<
        SystemMessage,
    > {
        post(&self.system_tx, SystemMessage::Down { pid, monitor_ref, reason })
    }

    fn send_exit(&self, pid: Pid, reason: ExitReason) -> Posted<SystemMessage> {
        post(&self.system_tx, SystemMessage::Exit { pid, reason })
    }

    /// The token is cancelled, whatever the reason.
    fn kill(&self, reason: ExitReason) -> Cancelled {
        cancel(&self.cancellation_token)
    }

    /// The actor is alive as long as its token is not cancelled.
    fn is_alive(&self, before: Option<&Cancelled>) -> Liveness {
        Liveness::Found(look_at(&self.cancellation_token, before))
    }
}

/// What all actors of a program share: identifiers, the process table and the
/// names.
pub struct Node {
    /// Hands out identifiers.
    pub pids: PidAllocator,
    /// The actors that are there.
    pub table: ProcessTable<ActorSystemSender>,
    /// Their names.
    pub names: Registry,
    /// The actors that have yet to end because another crashed. They count as
    /// crashed too.
    pub doomed: Vec<Pid>,
}

impl Node {
    /// Whether the node is in order: no identifier in the table is still to be
    /// handed out, and who is doomed is there.
    pub open spec fn wf(self) -> bool {
        &&& self.table.wf()
        &&& self.names.wf()
        &&& forall|pid: Pid| #[trigger]
            self.table@.has(pid) ==> pid.spec_id() < self.pids.spec_next()
        &&& forall|pid: Pid| #[trigger] self.doomed@.contains(pid) ==> self.table@.has(pid)
    }

    /// A node without actors.
    pub fn new() -> (r: Self)
        ensures
            r.wf(),
            r.pids.spec_next() == 1,
            r.table@ == Processes::<ActorSystemSender>::none(),
            r.names@ == Map::<Seq<char>, Pid>::empty(),
            r.doomed@ == Seq::<Pid>::empty(),
    {
        Node {
            pids: PidAllocator::new(),
            table: ProcessTable::new(),
            names: Registry::new(),
            doomed: Vec::new(),
        }
    }

    /// Takes an actor whose run ended off the node and tells those who are to
    /// learn of it. Those who end because of it are doomed from here on.
    pub fn exited(&mut self, pid: Pid, result: &Result<(), ActorError>) -> (r: Vec<Delivered>)
        requires
            old(self).wf(),
        ensures
            final(self).wf(),
            final(self).pids == old(self).pids,
            final(self).names == old(self).names,
            final(self).table@ == old(self).table@.without_process(pid),
            exists|reason: ExitReason| #[trigger]
                ends_for(*result, old(self).doomed@.contains(pid), reason) && process_table::notices_of(
                    r@,
                ).no_duplicates() && (forall|notice: Notice|
                    process_table::notices_of(r@).contains(notice) <==> old(self).table@.due(
                        pid,
                        reason,
                        notice,
                    )) && (forall|other: Pid|
                    final(self).doomed@.contains(other) <==> is_doomed_after(
                        old(self).doomed@,
                        old(self).table@,
                        pid,
                        reason,
                        other,
                    )),
            forall|i: int|
                0 <= i < r@.len() ==> process_table::carried_out(
                    old(self).table@,
                    #[trigger] r@[i],
                ),
    {
        let reason = exit_reason(result, is_among(&self.doomed, pid));
        let ghost why = reason;
        assert(ends_for(*result, old(self).doomed@.contains(pid), why));
        let delivered = self.table.unregister(pid, reason);
        self.doomed = doomed_next(&self.doomed, pid, &delivered);
        proof {
            let table = old(self).table@;
            old(self).table.law_what_a_table_says_is_in_order();
            assert forall|other: Pid| self.doomed@.contains(other) <==> is_doomed_after(
                old(self).doomed@,
                table,
                pid,
                why,
                other,
            ) by {
                let notices = process_table::notices_of(delivered@);
                let kill = Notice::Kill { to: other, reason: why };
                if is_killed(delivered@, other) {
                    let i = choose|i: int|
                        0 <= i < delivered@.len() && kills((#[trigger] delivered@[i]).notice, other);
                    assert(notices[i] == delivered@[i].notice);
                    assert(notices.contains(notices[i]));
                    assert(table.linked(pid, other));
                }
                if table.due(pid, why, kill) {
                    assert(notices.contains(kill));
                    let i = choose|i: int| 0 <= i < notices.len() && notices[i] == kill;
                    assert(kills(delivered@[i].notice, other));
                    assert(table.linked(pid, other));
                }
            }
            assert(forall|p: Pid| #[trigger] self.table@.has(p) ==> table.has(p));
            assert forall|p: Pid| #[trigger] self.doomed@.contains(p) implies self.table@.has(p) by {
                if table.due(pid, why, Notice::Kill { to: p, reason: why }) {
                    assert(table.linked(pid, p));
                }
            }
        }
        delivered
    }
}

/// Whether the notice makes the process end.
pub open spec fn kills(notice: Notice, pid: Pid) -> bool {
    notice matches Notice::Kill { to, .. } && to == pid
}

/// Whether one of the notices that were brought makes the process end.
pub open spec fn is_killed(delivered: Seq<Delivered>, pid: Pid) -> bool {
    exists|i: int| 0 <= i < delivered.len() && kills((#[trigger] delivered[i]).notice, pid)
}

/// Whether a process is doomed after another ended for this reason: it was
/// before, or it ends because of that.
pub open spec fn is_doomed_after<S>(
    doomed: Seq<Pid>,
    table: Processes<S>,
    ended: Pid,
    reason: ExitReason,
    pid: Pid,
) -> bool {
    pid != ended && (doomed.contains(pid) || table.due(
        ended,
        reason,
        Notice::Kill { to: pid, reason },
    ))
}

/// Whether the process is one of these.
fn is_among(pids: &Vec<Pid>, pid: Pid) -> (r: bool)
    ensures
        r == pids@.contains(pid),
{
    let mut i: usize = 0;
    while i < pids.len()
        invariant
            i <= pids.len(),
            forall|j: int| 0 <= j < i ==> #[trigger] pids@[j] != pid,
        decreases pids.len() - i,
    {
        if pids[i] == pid {
            assert(pids@[i as int] == pid);
            return true;
        }
        i = i + 1;
    }
    false
}

/// The processes that are doomed after one ended and these notices were
/// brought.
fn doomed_next(doomed: &Vec<Pid>, ended: Pid, delivered: &Vec<Delivered>) -> (r: Vec<Pid>)
    ensures
        forall|p: Pid|
            r@.contains(p) <==> p != ended && doomed@.contains(p) || is_killed(delivered@, p),
{
    let mut next: Vec<Pid> = Vec::new();
    let mut i: usize = 0;
    while i < doomed.len()
        invariant
            i <= doomed.len(),
            forall|p: Pid|
                next@.contains(p) <==> p != ended && doomed@.take(i as int).contains(p),
        decreases doomed.len() - i,
    {
        let ghost before = next@;
        assert(doomed@.take(i as int + 1) =~= doomed@.take(i as int).push(doomed@[i as int]));
        if doomed[i] != ended {
            next.push(doomed[i]);
        }
        proof {
            broadcast use vstd::seq_lib::group_seq_properties;

            assert(forall|p: Pid|
                next@.contains(p) <==> before.contains(p) || (doomed@[i as int] != ended && p
                    == doomed@[i as int]));
        }
        i = i + 1;
    }
    assert(doomed@.take(i as int) =~= doomed@);
    let mut k: usize = 0;
    while k < delivered.len()
        invariant
            k <= delivered.len(),
            forall|p: Pid|
                next@.contains(p) <==> p != ended && doomed@.contains(p) || is_killed(
                    delivered@.take(k as int),
                    p,
                ),
        decreases delivered.len() - k,
    {
        let ghost before = next@;
        if let Notice::Kill { to, .. } = &delivered[k].notice {
            next.push(*to);
        }
        proof {
            broadcast use vstd::seq_lib::group_seq_properties;

            let now = delivered@.take(k as int + 1);
            let past = delivered@.take(k as int);
            assert forall|p: Pid| is_killed(now, p) <==> is_killed(past, p) || kills(
                delivered@[k as int].notice,
                p,
            ) by {
                if is_killed(past, p) {
                    let j = choose|j: int| 0 <= j < past.len() && kills((#[trigger] past[j]).notice, p);
                    assert(kills(now[j].notice, p));
                }
                if kills(delivered@[k as int].notice, p) {
                    assert(kills(now[k as int].notice, p));
                }
                if is_killed(now, p) {
                    let j = choose|j: int| 0 <= j < now.len() && kills((#[trigger] now[j]).notice, p);
                    if j < k {
                        assert(kills(past[j].notice, p));
                    }
                }
            }
            assert(forall|p: Pid|
                next@.contains(p) <==> before.contains(p) || kills(delivered@[k as int].notice, p));
        }
        k = k + 1;
    }
    assert(delivered@.take(k as int) =~= delivered@);
    next
}

/// Whether an actor whose run ended so, and which was doomed or not, ended for
/// this reason: one that crashed, or ended because another did, ended by a
/// crash.
pub open spec fn ends_for(
    result: Result<(), ActorError>,
    doomed: bool,
    reason: ExitReason,
) -> bool {
    if result is Ok && !doomed {
        reason == ExitReason::Normal
    } else {
        reason matches ExitReason::Error(text) && text@ == "Actor crashed"@
    }
}

/// Why an actor ended, from how its run ended and whether it was doomed.
pub fn exit_reason(result: &Result<(), ActorError>, doomed: bool) -> (r: ExitReason)
    ensures
        ends_for(*result, doomed, r),
{
    match (result, doomed) {
        (Ok(()), false) => ExitReason::Normal,
        _ => ExitReason::Error("Actor crashed".to_owned()),
    }
}

/// A crash spreads along links, from one to the next: when an actor crashed, one
/// that is linked with it and does not trap exits is doomed, and when that ends
/// in its turn, however its run ended, those that are linked with it and do not
/// trap exits end too.
pub proof fn law_a_crash_spreads_on<S>(
    table: Processes<S>,
    doomed: Seq<Pid>,
    crashed: Pid,
    reason: ExitReason,
    second: Pid,
    later: Processes<S>,
    result: Result<(), ActorError>,
    later_reason: ExitReason,
    third: Pid,
)
    requires
        table.wf(),
        table.linked(crashed, second),
        !table.traps(second),
        !(reason is Normal),
        later.wf(),
        later.linked(second, third),
        !later.traps(third),
        ends_for(result, true, later_reason),
    ensures
        is_doomed_after(doomed, table, crashed, reason, second),
        later.due(second, later_reason, Notice::Kill { to: third, reason: later_reason }),
{
}

/// An actor that nobody's crash has ended, and that did not crash, ended of its
/// own accord.
pub proof fn law_a_stop_is_no_crash(result: Result<(), ActorError>, reason: ExitReason)
    requires
        ends_for(result, false, reason),
    ensures
        reason is Normal <==> result is Ok,
{
}

/// An actor that is ready to run.
#[verifier::reject_recursive_types(G)]
pub struct Launch<G: Actor + 'static> {
    /// The handle for whoever starts the actor.
    pub handle: ActorRef<G>,
    /// The handle that the actor's callbacks are given.
    pub own: ActorRef<G>,
    /// The actor's mailbox.
    pub rx: Mailbox<ActorInMsg<G>>,
    /// The actor's system messages.
    pub system_rx: Mailbox<SystemMessage>,
    /// Where in its life it stands.
    pub lifecycle: Lifecycle<G>,
    /// What is to be done first.
    pub command: Command<G>,
}

/// A request that is in an actor's mailbox.
#[verifier::reject_recursive_types(G)]
pub struct PendingCall<G: Actor> {
    /// Where the reply comes.
    pub reply: AwaitedReply<Result<G::Reply, ActorError>>,
    /// Shows that the request was put there.
    pub posted: Posted<ActorInMsg<G>>,
}

/// What an actor's mailbox did not take.
#[verifier::reject_recursive_types(G)]
pub struct Refused<G: Actor> {
    /// What the sender is told.
    pub error: ActorError,
    /// Shows what was handed to the mailbox.
    pub posted: Posted<ActorInMsg<G>>,
}

/// What taking an actor one step on did, and what is to be done next.
#[verifier::reject_recursive_types(G)]
pub struct Advance<G: Actor> {
    /// Where the actor stands now.
    pub lifecycle: Lifecycle<G>,
    /// What is to be done next.
    pub command: Command<G>,
    /// Shows that the reply was sent, if one was due.
    pub replied: Option<Answered<Result<G::Reply, ActorError>>>,
    /// Shows that the token was cancelled, if the actor stopped.
    pub cancelled: Option<Cancelled>,
}

/// A start that failed.
pub struct FailedStart {
    /// Why.
    pub error: LinkError,
    /// Shows that the actor was stopped.
    pub cancelled: Cancelled,
}

impl<G: Actor> Clone for ActorRef<G> {
    fn clone(&self) -> (r: Self)
        ensures
            r == *self,
    {
        ActorRef { tx: self.tx.clone(), identity: self.identity.clone() }
    }
}

impl<G: Actor> HasPid for ActorRef<G> {
    open spec fn spec_pid(&self) -> Pid {
        self.identity.pid()
    }

    fn pid(&self) -> Pid {
        self.identity.pid
    }
}

impl<G: Actor> ActorRef<G> {
    /// The actor's token.
    pub open spec fn spec_token(self) -> CancellationToken {
        self.identity.token()
    }

    /// Where the actor's system messages go.
    pub open spec fn spec_system_tx(self) -> UnboundedSender<SystemMessage> {
        self.identity.system_tx()
    }

    /// The sending end of the actor's mailbox.
    pub open spec fn spec_tx(self) -> UnboundedSender<ActorInMsg<G>> {
        self.tx
    }

    /// Prepares an actor to run: it gets an identifier, a mailbox, a place for
    /// system messages and a token, and is put into the process table.
    pub fn new(node: &mut Node, actor: G) -> (r: Launch<G>)
        requires
            old(node).wf(),
            old(node).pids.spec_next() < u64::MAX,
        ensures
            final(node).wf(),
            r.handle.spec_pid().spec_id() == old(node).pids.spec_next(),
            final(node).pids.spec_next() == old(node).pids.spec_next() + 1,
            !old(node).table@.has(r.handle.spec_pid()),
            ({
                let sender = final(node).table@.alive[r.handle.spec_pid()].sender;
                &&& final(node).table@ == old(node).table@.with_process(r.handle.spec_pid(), sender)
                &&& sender.system_tx() == r.handle.spec_system_tx()
                &&& sender.token() == r.handle.spec_token()
            }),
            final(node).names == old(node).names,
            final(node).doomed == old(node).doomed,
            r.own == r.handle,
            r.rx.of() == r.handle.spec_tx(),
            r.system_rx.of() == r.handle.spec_system_tx(),
            r.lifecycle == Lifecycle::<G>::starting(),
            r.command == (Command::Init { actor }),
    {
        let pid = node.pids.allocate();
        let (tx, rx) = mailbox();
        let (system_tx, system_rx) = mailbox();
        let cancellation_token = CancellationToken::new();
        let sender = ActorSystemSender {
            system_tx: system_tx.clone(),
            cancellation_token: cancellation_token.clone(),
        };
        node.table.register(pid, sender);
        let identity = ActorIdentity { pid, cancellation_token, system_tx };
        let handle = ActorRef { tx, identity };
        let own = handle.clone();
        let (lifecycle, command) = Lifecycle::start(actor);
        assert(forall|p: Pid| #[trigger] node.table@.has(p) ==> old(node).table@.has(p) || p == pid);
        Launch { handle, own, rx, system_rx, lifecycle, command }
    }

    /// The sending end of the actor's mailbox.
    pub fn sender(&self) -> (r: UnboundedSender<ActorInMsg<G>>)
        ensures
            r == self.spec_tx(),
    {
        self.tx.clone()
    }

    /// The actor's token.
    pub fn cancellation_token(&self) -> (r: CancellationToken)
        ensures
            r == self.spec_token(),
    {
        self.identity.cancellation_token.clone()
    }

    /// Stops the actor by cancelling its token: the actor leaves its loop, is
    /// torn down and ends.
    pub fn stop(&self) -> (r: Cancelled)
        ensures
            r.token() == self.spec_token(),
    {
        cancel(&self.identity.cancellation_token)
    }

    /// Hands a request to the actor's mailbox. It is refused if the actor is
    /// gone, and only then.
    pub fn begin_call(&self, message: G::Request) -> (r: Result<PendingCall<G>, Refused<G>>)
        ensures
            match r {
                Ok(call) => call.posted.accepted() && call.posted.to() == self.spec_tx()
                    && call.posted.message() == (ActorInMsg::<G>::Call {
                    sender: call.reply.of(),
                    message,
                }),
                Err(refused) => refused.error == ActorError::Server && !refused.posted.accepted()
                    && refused.posted.to() == self.spec_tx() && (
                refused.posted.message() matches ActorInMsg::Call { message: asked, .. } && asked
                    == message),
            },
    {
        let (sender, reply) = reply_channel();
        let posted = post(&self.tx, ActorInMsg::Call { sender, message });
        match conclude_send(posted.is_accepted()) {
            Ok(()) => Ok(PendingCall { reply, posted }),
            Err(error) => Err(Refused { error, posted }),
        }
    }

    /// Hands a message to the actor's mailbox. It is refused if the actor is
    /// gone, and only then.
    pub fn cast(&self, message: G::Message) -> (r: Result<Posted<ActorInMsg<G>>, Refused<G>>)
        ensures
            match r {
                Ok(posted) => posted.accepted() && posted.to() == self.spec_tx()
                    && posted.message() == (ActorInMsg::<G>::Cast { message }),
                Err(refused) => refused.error == ActorError::Server && !refused.posted.accepted()
                    && refused.posted.to() == self.spec_tx() && refused.posted.message() == (
                ActorInMsg::<G>::Cast { message }),
            },
    {
        self.hand_over(ActorInMsg::Cast { message })
    }

    /// Hands over what is to go to the actor's mailbox.
    fn hand_over(&self, message: ActorInMsg<G>) -> (r: Result<Posted<ActorInMsg<G>>, Refused<G>>)
        ensures
            match r {
                Ok(posted) => posted.accepted() && posted.to() == self.spec_tx()
                    && posted.message() == message,
                Err(refused) => refused.error == ActorError::Server && !refused.posted.accepted()
                    && refused.posted.to() == self.spec_tx() && refused.posted.message() == message,
            },
    {
        let posted = post(&self.tx, message);
        match conclude_send(posted.is_accepted()) {
            Ok(()) => Ok(posted),
            Err(error) => Err(Refused { error, posted }),
        }
    }

    /// Takes the actor one step on: sends the reply that is due, cancels the
    /// token if the actor stops, and says what is to be done next.
    pub fn advance(&self, lifecycle: Lifecycle<G>, event: Event<G>) -> (r: Advance<G>)
        requires
            lifecycle.awaits(event),
        ensures
            ({
                let step = lifecycle.spec_next(event);
                &&& r.lifecycle == step.lifecycle
                &&& r.command == step.command
                &&& match step.reply {
                    Some(reply) => r.replied matches Some(replied) && replied.to() == reply.sender
                        && replied.value() == reply.response,
                    None => r.replied is None,
                }
                &&& if step.cancel {
                    r.cancelled matches Some(cancelled) && cancelled.token() == self.spec_token()
                } else {
                    r.cancelled is None
                }
            }),
    {
        let step = lifecycle.next(event);
        let replied = match step.reply {
            // Where the caller does not wait any more the reply is dropped.
            Some(reply) => Some(answer(reply.sender, reply.response)),
            None => None,
        };
        let cancelled = if step.cancel {
            Some(self.stop())
        } else {
            None
        };
        Advance { lifecycle: step.lifecycle, command: step.command, replied, cancelled }
    }

    /// Links the actor with another process, in both directions.
    ///
    /// When either ends, the other is told if it traps exits; if it does not
    /// and the first crashed, it ends too.
    pub fn link<S, H: HasPid>(&self, table: &mut ProcessTable<S>, other: &H) -> (r: Result<
        (),
        LinkError,
    >)
        requires
            old(table).wf(),
        ensures
            final(table).wf(),
            match old(table)@.link_error(self.spec_pid(), other.spec_pid()) {
                Some(error) => r == Err::<(), LinkError>(error) && final(table)@ == old(table)@,
                None => r == Ok::<(), LinkError>(()) && final(table)@ == old(table)@.with_link(
                    self.spec_pid(),
                    other.spec_pid(),
                ),
            },
    {
        table.link(self.identity.pid, other.pid())
    }

    /// Takes the link with another process away.
    pub fn unlink<S, H: HasPid>(&self, table: &mut ProcessTable<S>, other: &H)
        requires
            old(table).wf(),
        ensures
            final(table).wf(),
            final(table)@ == old(table)@.without_link(self.spec_pid(), other.spec_pid()),
    {
        table.unlink(self.identity.pid, other.pid());
    }

    /// Lets the actor monitor another process: when that ends, the actor gets a
    /// `Down` message. The reference that comes back cancels the monitor.
    pub fn monitor<S, H: HasPid>(&self, table: &mut ProcessTable<S>, other: &H) -> (r: Result<
        MonitorRef,
        LinkError,
    >)
        requires
            old(table).wf(),
            old(table)@.next_monitor < u64::MAX,
        ensures
            final(table).wf(),
            match old(table)@.monitor_error(self.spec_pid(), other.spec_pid()) {
                Some(error) => r == Err::<MonitorRef, LinkError>(error) && final(table)@ == old(
                    table,
                )@,
                None => r matches Ok(m) && m.spec_id() == old(table)@.next_monitor && final(table)@
                    == old(table)@.with_monitor(m, self.spec_pid(), other.spec_pid()),
            },
    {
        table.monitor(self.identity.pid, other.pid())
    }

    /// Cancels a monitor.
    pub fn demonitor<S>(&self, table: &mut ProcessTable<S>, monitor_ref: MonitorRef)
        requires
            old(table).wf(),
        ensures
            final(table).wf(),
            final(table)@ == old(table)@.without_monitor(monitor_ref),
    {
        table.demonitor(monitor_ref);
    }

    /// Lets the actor trap exits, or not: an actor that does is told of the end
    /// of those it is linked with, where it would otherwise end with them.
    pub fn trap_exit<S>(&self, table: &mut ProcessTable<S>, trap: bool)
        requires
            old(table).wf(),
        ensures
            final(table).wf(),
            final(table)@ == old(table)@.with_trap(self.spec_pid(), trap),
    {
        table.set_trap_exit(self.identity.pid, trap);
    }

    /// Whether the actor traps exits.
    pub fn is_trapping_exit<S>(&self, table: &ProcessTable<S>) -> (r: bool)
        requires
            table.wf(),
        ensures
            r == table@.traps(self.spec_pid()),
    {
        table.is_trapping_exit(self.identity.pid)
    }

    /// Whether another process is there and has not been made to end, by its
    /// token. One that can be shown to have been made to end before is not alive.
    pub fn is_alive<S: SystemMessageSender, H: HasPid>(
        &self,
        table: &ProcessTable<S>,
        other: &H,
        before: Option<&Cancelled>,
    ) -> (r: Liveness)
        requires
            table.wf(),
        ensures
            match r {
                Liveness::Absent => !table@.has(other.spec_pid()),
                Liveness::Found(looked) => table@.has(other.spec_pid()) && looked.token()
                    == table@.alive[other.spec_pid()].sender.token(),
            },
            before matches Some(cancelled) && cancelled.token()
                == table@.alive[other.spec_pid()].sender.token() ==> !r.alive(),
    {
        table.is_alive(other.pid(), before)
    }

    /// The processes that are linked with the actor.
    pub fn get_links<S>(&self, table: &ProcessTable<S>) -> (r: Vec<Pid>)
        requires
            table.wf(),
        ensures
            r@.no_duplicates(),
            forall|other: Pid| r@.contains(other) <==> table@.linked(self.spec_pid(), other),
    {
        table.get_links(self.identity.pid)
    }

    /// Gives the actor a name by which others can find it.
    pub fn register(&self, names: &mut Registry, name: String) -> (r: Result<(), RegistryError>)
        requires
            old(names).wf(),
        ensures
            final(names).wf(),
            match registry::register_error(old(names)@, name@, self.spec_pid()) {
                Some(error) => r == Err::<(), RegistryError>(error) && final(names)@ == old(names)@,
                None => r == Ok::<(), RegistryError>(()) && final(names)@ == old(names)@.insert(
                    name@,
                    self.spec_pid(),
                ),
            },
    {
        names.register(name, self.identity.pid)
    }

    /// Takes the actor's name away.
    pub fn unregister(&self, names: &mut Registry)
        requires
            old(names).wf(),
        ensures
            final(names).wf(),
            final(names)@ == registry::without_pid(old(names)@, self.spec_pid()),
    {
        names.unregister_pid(self.identity.pid);
    }

    /// The actor's name, if it has one.
    pub fn registered_name(&self, names: &Registry) -> (r: Option<String>)
        requires
            names.wf(),
        ensures
            match r {
                Some(name) => names@.dom().contains(name@) && names@[name@] == self.spec_pid(),
                None => !registry::is_named(names@, self.spec_pid()),
            },
    {
        names.name_of(self.identity.pid)
    }

    /// Links an actor that has just been started with another process. If that
    /// fails the actor is stopped.
    pub fn start_linked<S, H: HasPid>(self, table: &mut ProcessTable<S>, other: &H) -> (r: Result<
        Self,
        FailedStart,
    >)
        requires
            old(table).wf(),
        ensures
            final(table).wf(),
            match old(table)@.link_error(self.spec_pid(), other.spec_pid()) {
                Some(error) => r matches Err(failed) && failed.error == error
                    && failed.cancelled.token() == self.spec_token() && final(table)@ == old(table)@,
                None => r == Ok::<Self, FailedStart>(self) && final(table)@ == old(
                    table,
                )@.with_link(self.spec_pid(), other.spec_pid()),
            },
    {
        match self.link(table, other) {
            Ok(()) => Ok(self),
            Err(error) => Err(FailedStart { error, cancelled: self.stop() }),
        }
    }

    /// Lets another process monitor an actor that has just been started. If
    /// that fails the actor is stopped.
    pub fn start_monitored<S, H: HasPid>(
        self,
        table: &mut ProcessTable<S>,
        monitor_from: &H,
    ) -> (r: Result<(Self, MonitorRef), FailedStart>)
        requires
            old(table).wf(),
            old(table)@.next_monitor < u64::MAX,
        ensures
            final(table).wf(),
            match old(table)@.monitor_error(monitor_from.spec_pid(), self.spec_pid()) {
                Some(error) => r matches Err(failed) && failed.error == error
                    && failed.cancelled.token() == self.spec_token() && final(table)@ == old(table)@,
                None => r matches Ok((handle, m)) && handle == self && m.spec_id() == old(
                    table,
                )@.next_monitor && final(table)@ == old(table)@.with_monitor(
                    m,
                    monitor_from.spec_pid(),
                    self.spec_pid(),
                ),
            },
    {
        match table.monitor(monitor_from.pid(), self.identity.pid) {
            Ok(monitor_ref) => Ok((self, monitor_ref)),
            Err(error) => Err(FailedStart { error, cancelled: self.stop() }),
        }
    }
}

/// An actor that is started later has a larger identifier, and so a different
/// one, as long as identifiers were only handed out in between.
pub proof fn law_later_actors_have_larger_pids(before: Node, first: Pid, later: Node, second: Pid)
    requires
        first.spec_id() == before.pids.spec_next(),
        later.pids.spec_next() >= before.pids.spec_next() + 1,
        second.spec_id() == later.pids.spec_next(),
    ensures
        first.spec_id() < second.spec_id(),
        first != second,
{
}

/// What follows for the sender from whether the mailbox took a message: where
/// it did not, the actor is gone.
pub fn conclude_send(accepted: bool) -> (r: Result<(), ActorError>)
    ensures
        accepted ==> r == Ok::<(), ActorError>(()),
        !accepted ==> r == Err::<(), ActorError>(ActorError::Server),
{
    if accepted {
        Ok(())
    } else {
        Err(ActorError::Server)
    }
}

/// What a caller gets in the end, from how its waiting ended: with the actor's
/// answer, with the actor gone without one, or with the time run out.
pub fn conclude_call<R, D, T>(waited: Result<Result<Result<R, ActorError>, D>, T>) -> (r: Result<
    R,
    ActorError,
>)
    ensures
        r == match waited {
            Ok(Ok(answer)) => answer,
            Ok(Err(_)) => Err(ActorError::Server),
            Err(_) => Err(ActorError::RequestTimeout),
        },
{
    match waited {
        Ok(Ok(answer)) => answer,
        Ok(Err(_)) => Err(ActorError::Server),
        Err(_) => Err(ActorError::RequestTimeout),
    }
}

/// What an actor is to be sent, from what came first: the message if the signal
/// did, and nothing if the actor stopped before.
pub open spec fn due_message<G: Actor>(first: First, message: G::Message) -> Option<ActorInMsg<G>> {
    match first {
        First::Cancelled => None,
        First::Signal => Some(ActorInMsg::Cast { message }),
    }
}

/// What an actor is to be sent, from what came first.
pub fn message_on<G: Actor>(first: First, message: G::Message) -> (r: Option<ActorInMsg<G>>)
    ensures
        r == due_message::<G>(first, message),
{
    match first {
        First::Cancelled => None,
        First::Signal => Some(ActorInMsg::Cast { message }),
    }
}

/// Hands an actor's mailbox what [`message_on`] says is to be sent, if there is
/// anything: the message if the signal came first, and nothing if the actor
/// stopped before.
pub fn send_message_on<G: Actor>(
    handle: &ActorRef<G>,
    first: First,
    message: G::Message,
) -> (r: Option<Result<Posted<ActorInMsg<G>>, Refused<G>>>)
    ensures
        match due_message::<G>(first, message) {
            None => r is None,
            Some(due) => match r {
                Some(Ok(posted)) => posted.accepted() && posted.to() == handle.spec_tx()
                    && posted.message() == due,
                Some(Err(refused)) => refused.error == ActorError::Server
                    && !refused.posted.accepted() && refused.posted.to() == handle.spec_tx()
                    && refused.posted.message() == due,
                None => false,
            },
        },
{
    match message_on::<G>(first, message) {
        None => None,
        Some(due) => Some(handle.hand_over(due)),
    }
}

/// After a process ended, another counts as having yet to end because of a crash
/// only for cause: it did before, or it is linked with the one that ended, does
/// not trap exits, and the reason is not a normal one.
pub proof fn law_only_a_crash_dooms<S>(
    table: Processes<S>,
    doomed: Seq<Pid>,
    ended: Pid,
    reason: ExitReason,
    other: Pid,
)
    ensures
        is_doomed_after(doomed, table, ended, reason, other) <==> other != ended && (
        doomed.contains(other) || (table.links.contains((ended, other)) && !(
        table.alive.dom().contains(other) && table.alive[other].trap_exit) && reason
            != ExitReason::Normal)),
{
}

/// An actor that traps exits survives the crash of one that it is linked with in
/// every respect: if it later stops of its own accord, it ended normally and
/// takes nobody along.
pub proof fn law_who_traps_exits_does_not_crash<S>(
    table: Processes<S>,
    doomed: Seq<Pid>,
    crashed: Pid,
    reason: ExitReason,
    supervisor: Pid,
    later: Processes<S>,
    later_reason: ExitReason,
    other: Pid,
)
    requires
        table.alive.dom().contains(supervisor),
        table.alive[supervisor].trap_exit,
        !doomed.contains(supervisor),
        ends_for(
            Ok(()),
            is_doomed_after(doomed, table, crashed, reason, supervisor),
            later_reason,
        ),
    ensures
        later_reason == ExitReason::Normal,
        forall|why: ExitReason|
            !#[trigger] later.due(supervisor, later_reason, Notice::Kill { to: other, reason: why }),
{
}

/// A normal end dooms nobody, and the end of a process is the end of its doom.
pub proof fn law_a_normal_end_dooms_nobody<S>(
    table: Processes<S>,
    doomed: Seq<Pid>,
    ended: Pid,
    reason: ExitReason,
    other: Pid,
)
    ensures
        is_doomed_after(doomed, table, ended, ExitReason::Normal, other) ==> doomed.contains(other),
        !is_doomed_after(doomed, table, ended, reason, ended),
{
}

/// An actor ended normally if and only if its run ended well and no crash of
/// another ended it; all else is told as a crash.
pub proof fn law_an_end_is_normal_or_a_crash(
    result: Result<(), ActorError>,
    doomed: bool,
    reason: ExitReason,
)
    requires
        ends_for(result, doomed, reason),
    ensures
        reason == ExitReason::Normal <==> result is Ok && !doomed,
        reason matches ExitReason::Error(text) ==> text@ == "Actor crashed"@,
{
}

/// Of the notices that were brought those that make a process end are those that
/// say so, and no others.
pub proof fn law_only_a_kill_kills(delivered: Seq<Delivered>, pid: Pid)
    ensures
        is_killed(delivered, pid) <==> exists|i: int|
            0 <= i < delivered.len() && ((#[trigger] delivered[i]).notice matches Notice::Kill {
                to,
                ..
            } && to == pid),
{
    if is_killed(delivered, pid) {
        let i = choose|i: int| 0 <= i < delivered.len() && kills((#[trigger] delivered[i]).notice, pid);
        assert(delivered[i].notice matches Notice::Kill { to, .. } && to == pid);
    }
    if exists|i: int|
        0 <= i < delivered.len() && ((#[trigger] delivered[i]).notice matches Notice::Kill { to, .. }
            && to == pid) {
        let i = choose|i: int|
            0 <= i < delivered.len() && ((#[trigger] delivered[i]).notice matches Notice::Kill {
                to,
                ..
            } && to == pid);
        assert(kills(delivered[i].notice, pid));
    }
}

/// A signal that came first makes the message due, as it is; a cancellation that
/// came first makes nothing due.
pub proof fn law_only_a_signal_sends<G: Actor>(first: First, message: G::Message)
    ensures
        match due_message::<G>(first, message) {
            Some(due) => first == First::Signal && due == (ActorInMsg::<G>::Cast { message }),
            None => first == First::Cancelled,
        },
{
}

/// A caller who does not say otherwise waits five seconds.
pub proof fn law_callers_wait_five_seconds()
    ensures
        DEFAULT_CALL_TIMEOUT_SECS == 5,
{
}

/// A handle leads to the mailbox whose sending end it holds, and to the one whose
/// identity it holds.
pub proof fn law_a_handle_leads_where_it_says<G: Actor>(handle: ActorRef<G>)
    ensures
        handle.spec_tx() == handle.tx,
        handle.spec_token() == handle.identity.token(),
        handle.spec_system_tx() == handle.identity.system_tx(),
        handle.spec_pid() == handle.identity.pid(),
{
}

} // verus!
