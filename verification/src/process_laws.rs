//! What links, monitors and the trapping of exits promise.
use crate::link::{MonitorRef, SystemMessage};
use crate::pid::{ExitReason, Pid};
use crate::process_table::{
    self, Delivered, LinkError, Liveness, Notice, Processes, Receipt, SystemMessageSender,
};
use vstd::prelude::*;

verus! {

/// Links go both ways: whoever links, each of the two is linked with the other.
pub proof fn law_links_go_both_ways<S>(table: Processes<S>, a: Pid, b: Pid)
    requires
        table.wf(),
    ensures
        table.linked(a, b) <==> table.linked(b, a),
        table.with_link(a, b).linked(a, b),
        table.with_link(a, b).linked(b, a),
        table.with_link(a, b) == table.with_link(b, a),
        table.without_link(a, b) == table.without_link(b, a),
{
    assert(table.with_link(a, b).links =~= table.with_link(b, a).links);
    assert(table.without_link(a, b).links =~= table.without_link(b, a).links);
}

/// Taking a link away undoes making it.
pub proof fn law_unlink_undoes_link<S>(table: Processes<S>, a: Pid, b: Pid)
    requires
        table.wf(),
        !table.linked(a, b),
    ensures
        table.with_link(a, b).without_link(a, b) == table,
        table.without_link(a, b) == table,
{
    assert(!table.linked(b, a));
    assert(table.with_link(a, b).without_link(a, b).links =~= table.links);
    assert(table.without_link(a, b).links =~= table.links);
}

/// Linking twice is linking once.
pub proof fn law_linking_twice_is_linking_once<S>(table: Processes<S>, a: Pid, b: Pid)
    ensures
        table.with_link(a, b).with_link(a, b) == table.with_link(a, b),
{
    assert(table.with_link(a, b).with_link(a, b).links =~= table.with_link(a, b).links);
}

/// Cancelling a monitor undoes making it, but for its number, which is not
/// used again.
pub proof fn law_demonitor_undoes_monitor<S>(
    table: Processes<S>,
    m: MonitorRef,
    from: Pid,
    target: Pid,
)
    requires
        table.wf(),
        m.spec_id() == table.next_monitor,
    ensures
        table.with_monitor(m, from, target).without_monitor(m) == (Processes {
            next_monitor: table.next_monitor + 1,
            ..table
        }),
{
    assert(!table.monitors.dom().contains(m));
    assert(table.with_monitor(m, from, target).without_monitor(m).monitors =~= table.monitors);
}

/// When a process crashes, one that is linked with it and does not trap exits
/// ends too.
pub proof fn law_a_crash_spreads<S>(table: Processes<S>, pid: Pid, other: Pid, reason: ExitReason)
    requires
        table.wf(),
        table.linked(pid, other),
        !table.traps(other),
        !(reason is Normal),
    ensures
        table.due(pid, reason, Notice::Kill { to: other, reason }),
        forall|notice: Notice| #[trigger]
            table.due(pid, reason, notice) && process_table::recipient(notice) == other ==> notice is Kill
                || notice is Down,
{
}

/// A process that traps exits is told of the end of one that it is linked
/// with, whatever the reason, and does not end because of it.
pub proof fn law_trapping_turns_crashes_into_messages<S>(
    table: Processes<S>,
    pid: Pid,
    other: Pid,
    reason: ExitReason,
)
    requires
        table.wf(),
        table.linked(pid, other),
        table.traps(other),
    ensures
        table.due(pid, reason, Notice::Exit { to: other, pid, reason }),
        forall|notice: Notice| #[trigger]
            table.due(pid, reason, notice) && process_table::recipient(notice) == other ==> !(notice is Kill),
{
}

/// Nobody ends because a process stopped of its own accord.
pub proof fn law_a_normal_exit_spares_others<S>(table: Processes<S>, pid: Pid, notice: Notice)
    requires
        table.wf(),
        table.due(pid, ExitReason::Normal, notice),
    ensures
        !(notice is Kill),
{
}

/// The one that monitors a process is told of its end, whatever the reason, and
/// does not end because of it.
pub proof fn law_a_monitor_reports_the_end<S>(
    table: Processes<S>,
    m: MonitorRef,
    reason: ExitReason,
)
    requires
        table.wf(),
        table.monitors.dom().contains(m),
        table.monitors[m].0 != table.monitors[m].1,
    ensures
        ({
            let (from, target) = table.monitors[m];
            &&& table.due(target, reason, Notice::Down { to: from, pid: target, monitor_ref: m, reason })
            &&& !table.linked(target, from) ==> forall|notice: Notice| #[trigger]
                table.due(target, reason, notice) && process_table::recipient(notice) == from ==> notice is Down
        }),
{
}

/// Monitors go one way: a process is not told of the end of another that only
/// monitors it.
pub proof fn law_monitors_go_one_way<S>(
    table: Processes<S>,
    from: Pid,
    target: Pid,
    reason: ExitReason,
    notice: Notice,
)
    requires
        table.wf(),
        !table.linked(from, target),
        forall|m: MonitorRef| #[trigger]
            table.monitors.dom().contains(m) ==> table.monitors[m] != (target, from),
        table.due(from, reason, notice),
    ensures
        process_table::recipient(notice) != target,
{
}

/// A monitor that was cancelled reports nothing.
pub proof fn law_a_cancelled_monitor_is_silent<S>(
    table: Processes<S>,
    m: MonitorRef,
    pid: Pid,
    reason: ExitReason,
    notice: Notice,
)
    requires
        table.wf(),
        table.without_monitor(m).due(pid, reason, notice),
    ensures
        notice matches Notice::Down { monitor_ref, .. } ==> monitor_ref != m,
{
}

/// Processes whose link was taken away do not learn of each other's end through
/// it.
pub proof fn law_an_unlinked_process_is_left_alone<S>(
    table: Processes<S>,
    a: Pid,
    b: Pid,
    reason: ExitReason,
    notice: Notice,
)
    requires
        table.wf(),
        table.without_link(a, b).due(a, reason, notice),
        process_table::recipient(notice) == b,
    ensures
        notice is Down,
{
}

/// A process that ended has left nothing behind: no link, no monitor, and so
/// nothing that could tell of its end again.
pub proof fn law_an_ended_process_is_gone<S>(table: Processes<S>, pid: Pid)
    requires
        table.wf(),
    ensures
        !table.without_process(pid).has(pid),
        forall|other: Pid| !#[trigger] table.without_process(pid).linked(pid, other),
        forall|other: Pid| !#[trigger] table.without_process(pid).linked(other, pid),
        forall|m: MonitorRef| #[trigger]
            table.without_process(pid).monitors.dom().contains(m) ==> table.without_process(
                pid,
            ).monitors[m].0 != pid && table.without_process(pid).monitors[m].1 != pid,
        forall|reason: ExitReason, notice: Notice| !#[trigger]
            table.without_process(pid).due(pid, reason, notice),
{
    let after = table.without_process(pid);
    assert forall|reason: ExitReason, notice: Notice| !#[trigger] after.due(pid, reason, notice) by {
        if after.due(pid, reason, notice) {
            match notice {
                Notice::Exit { to, .. } => {
                    assert(after.linked(pid, to));
                },
                Notice::Kill { to, .. } => {
                    assert(after.linked(pid, to));
                },
                Notice::Down { monitor_ref, .. } => {
                    assert(after.monitors.dom().contains(monitor_ref));
                },
            }
        }
    }
}

/// The end of a process changes nothing between others.
pub proof fn law_an_end_concerns_nobody_else<S>(table: Processes<S>, pid: Pid, a: Pid, b: Pid)
    requires
        table.wf(),
        a != pid,
        b != pid,
    ensures
        table.without_process(pid).has(a) <==> table.has(a),
        table.without_process(pid).traps(a) == table.traps(a),
        table.without_process(pid).linked(a, b) <==> table.linked(a, b),
        forall|m: MonitorRef|
            table.monitors.dom().contains(m) && table.monitors[m] == (a, b) ==> #[trigger]
            table.without_process(pid).monitors.dom().contains(m) && table.without_process(
                pid,
            ).monitors[m] == (a, b),
{
}

/// A link is refused only for cause: two different processes that are both
/// there can be linked, whatever either traps.
pub proof fn law_a_link_is_refused_only_for_cause<S>(table: Processes<S>, a: Pid, b: Pid)
    ensures
        table.link_error(a, b) is None <==> a != b && table.alive.dom().contains(a)
            && table.alive.dom().contains(b),
        match table.link_error(a, b) {
            Some(LinkError::SelfLink) => a == b,
            Some(LinkError::ProcessNotFound(p)) => a != b && (p == a || p == b)
                && !table.alive.dom().contains(p),
            None => true,
        },
{
}

/// A monitor is refused only for cause: any process that is there can monitor
/// any that is there.
pub proof fn law_a_monitor_is_refused_only_for_cause<S>(
    table: Processes<S>,
    from: Pid,
    target: Pid,
)
    ensures
        table.monitor_error(from, target) is None <==> table.alive.dom().contains(from)
            && table.alive.dom().contains(target),
        match table.monitor_error(from, target) {
            Some(LinkError::SelfLink) => false,
            Some(LinkError::ProcessNotFound(p)) => (p == from || p == target)
                && !table.alive.dom().contains(p),
            None => true,
        },
{
}

/// A table without processes holds nothing.
pub proof fn law_no_process_is_nothing<S>()
    ensures
        forall|pid: Pid| !#[trigger] Processes::<S>::none().alive.dom().contains(pid),
        forall|pair: (Pid, Pid)| !#[trigger] Processes::<S>::none().links.contains(pair),
        forall|m: MonitorRef| !#[trigger] Processes::<S>::none().monitors.dom().contains(m),
        Processes::<S>::none().next_monitor == 0,
{
}

/// What is asked of a table is what it holds.
pub proof fn law_a_table_says_what_it_holds<S>(table: Processes<S>, a: Pid, b: Pid)
    ensures
        table.has(a) <==> table.alive.dom().contains(a),
        table.linked(a, b) <==> table.links.contains((a, b)),
        table.traps(a) <==> table.alive.dom().contains(a) && table.alive[a].trap_exit,
{
}

/// A process that joins is there, does not trap exits, is linked with nobody new
/// and changes nothing for others.
pub proof fn law_joining_concerns_nobody_else<S>(
    table: Processes<S>,
    pid: Pid,
    sender: S,
    other: Pid,
)
    ensures
        ({
            let after = table.with_process(pid, sender);
            &&& after.alive.dom().contains(pid)
            &&& after.alive[pid].sender == sender
            &&& !after.alive[pid].trap_exit
            &&& other != pid ==> (after.alive.dom().contains(other)
                <==> table.alive.dom().contains(other))
            &&& other != pid ==> after.alive[other] == table.alive[other]
            &&& after.links == table.links
            &&& after.monitors == table.monitors
            &&& after.next_monitor == table.next_monitor
        }),
{
}

/// A process that leaves takes with it its links, its monitors and those of it,
/// and nothing else.
pub proof fn law_leaving_takes_nothing_else<S>(
    table: Processes<S>,
    pid: Pid,
    a: Pid,
    b: Pid,
    m: MonitorRef,
)
    ensures
        ({
            let after = table.without_process(pid);
            &&& after.alive.dom().contains(a) <==> table.alive.dom().contains(a) && a != pid
            &&& a != pid ==> after.alive[a] == table.alive[a]
            &&& after.links.contains((a, b)) <==> table.links.contains((a, b)) && a != pid && b
                != pid
            &&& after.monitors.dom().contains(m) <==> table.monitors.dom().contains(m)
                && table.monitors[m].0 != pid && table.monitors[m].1 != pid
            &&& after.monitors.dom().contains(m) ==> after.monitors[m] == table.monitors[m]
            &&& after.next_monitor == table.next_monitor
        }),
{
}

/// Linking joins the two, in both directions, and nobody else.
pub proof fn law_linking_concerns_nobody_else<S>(
    table: Processes<S>,
    a: Pid,
    b: Pid,
    x: Pid,
    y: Pid,
)
    ensures
        ({
            let after = table.with_link(a, b);
            &&& after.links.contains((x, y)) <==> table.links.contains((x, y)) || (x == a && y
                == b) || (x == b && y == a)
            &&& after.alive == table.alive
            &&& after.monitors == table.monitors
            &&& after.next_monitor == table.next_monitor
        }),
{
}

/// Unlinking parts the two, in both directions, and nobody else.
pub proof fn law_unlinking_concerns_nobody_else<S>(
    table: Processes<S>,
    a: Pid,
    b: Pid,
    x: Pid,
    y: Pid,
)
    ensures
        ({
            let after = table.without_link(a, b);
            &&& after.links.contains((x, y)) <==> table.links.contains((x, y)) && !(x == a && y
                == b) && !(x == b && y == a)
            &&& after.alive == table.alive
            &&& after.monitors == table.monitors
            &&& after.next_monitor == table.next_monitor
        }),
{
}

/// Monitoring adds one monitor, under a number that no other has or had, and
/// changes no other.
pub proof fn law_monitoring_concerns_nobody_else<S>(
    table: Processes<S>,
    m: MonitorRef,
    from: Pid,
    target: Pid,
    n: MonitorRef,
)
    requires
        table.wf(),
        m.spec_id() == table.next_monitor,
    ensures
        ({
            let after = table.with_monitor(m, from, target);
            &&& !table.monitors.dom().contains(m)
            &&& after.monitors.dom().contains(m) && after.monitors[m] == (from, target)
            &&& n != m ==> (after.monitors.dom().contains(n) <==> table.monitors.dom().contains(n))
            &&& n != m ==> after.monitors[n] == table.monitors[n]
            &&& after.next_monitor == table.next_monitor + 1
            &&& after.alive == table.alive
            &&& after.links == table.links
        }),
{
}

/// Cancelling a monitor takes that monitor away and no other.
pub proof fn law_demonitoring_concerns_nobody_else<S>(
    table: Processes<S>,
    m: MonitorRef,
    n: MonitorRef,
)
    ensures
        ({
            let after = table.without_monitor(m);
            &&& after.monitors.dom().contains(n) <==> table.monitors.dom().contains(n) && n != m
            &&& n != m ==> after.monitors[n] == table.monitors[n]
            &&& after.next_monitor == table.next_monitor
            &&& after.alive == table.alive
            &&& after.links == table.links
        }),
{
}

/// Trapping exits, or not, concerns the one process, if it is there, and nothing
/// else of it or of others.
pub proof fn law_trapping_concerns_nobody_else<S>(
    table: Processes<S>,
    pid: Pid,
    trap: bool,
    other: Pid,
)
    ensures
        ({
            let after = table.with_trap(pid, trap);
            &&& after.alive.dom().contains(other) <==> table.alive.dom().contains(other)
            &&& table.alive.dom().contains(pid) ==> after.alive[pid].trap_exit == trap
            &&& table.alive.dom().contains(other) ==> after.alive[other].sender
                == table.alive[other].sender
            &&& other != pid ==> after.alive[other] == table.alive[other]
            &&& after.links == table.links
            &&& after.monitors == table.monitors
            &&& after.next_monitor == table.next_monitor
        }),
{
}

/// Of two processes that are linked, when one ends the other is told if it traps
/// exits, and made to end if it does not and the reason is not a normal one: the
/// one or the other, and never both.
pub proof fn law_the_other_end_of_a_link_learns<S>(
    table: Processes<S>,
    pid: Pid,
    other: Pid,
    reason: ExitReason,
)
    requires
        table.links.contains((pid, other)),
        table.alive.dom().contains(other),
    ensures
        table.due(pid, reason, Notice::Exit { to: other, pid, reason })
            <==> table.alive[other].trap_exit,
        table.due(pid, reason, Notice::Kill { to: other, reason }) <==> !table.alive[other].trap_exit
            && reason != ExitReason::Normal,
{
}

/// Whoever monitors another is told of its end through that very monitor,
/// whatever the reason.
pub proof fn law_the_watcher_learns<S>(
    table: Processes<S>,
    m: MonitorRef,
    from: Pid,
    target: Pid,
    reason: ExitReason,
)
    requires
        table.monitors.dom().contains(m),
        table.monitors[m] == (from, target),
        from != target,
    ensures
        table.due(target, reason, Notice::Down { to: from, pid: target, monitor_ref: m, reason }),
{
}

/// Nobody learns of an end but those who are linked with the process or monitor
/// it, and what they learn is of which process and why.
pub proof fn law_nobody_learns_without_cause<S>(
    table: Processes<S>,
    pid: Pid,
    reason: ExitReason,
    notice: Notice,
)
    requires
        table.due(pid, reason, notice),
    ensures
        match notice {
            Notice::Exit { to, pid: ended, reason: why } => table.links.contains((pid, to))
                && table.alive.dom().contains(to) && table.alive[to].trap_exit && ended == pid
                && why == reason,
            Notice::Kill { to, reason: why } => table.links.contains((pid, to)) && !(
            table.alive.dom().contains(to) && table.alive[to].trap_exit) && reason
                != ExitReason::Normal && why == reason,
            Notice::Down { to, pid: ended, monitor_ref, reason: why } =>
                table.monitors.dom().contains(monitor_ref) && table.monitors[monitor_ref] == (
                to,
                pid,
            ) && ended == pid && why == reason && to != pid,
        },
{
}

/// A notice that was brought was brought to the process that it is for, and as
/// what it is: a system message that says the same, or the cancellation of the
/// process's token.
pub proof fn law_a_notice_is_brought_as_it_is<S: SystemMessageSender>(
    table: Processes<S>,
    delivered: Delivered,
)
    requires
        process_table::carried_out(table, delivered),
    ensures
        match delivered.notice {
            Notice::Exit { to, pid, reason } => delivered.receipt matches Receipt::Posted(posted)
                && posted.to() == table.alive[to].sender.system_tx() && posted.message() == (
            SystemMessage::Exit { pid, reason }),
            Notice::Kill { to, .. } => delivered.receipt matches Receipt::Cancelled(cancelled)
                && cancelled.token() == table.alive[to].sender.token(),
            Notice::Down { to, pid, monitor_ref, reason } =>
                delivered.receipt matches Receipt::Posted(posted) && posted.to()
                    == table.alive[to].sender.system_tx() && posted.message() == (
                SystemMessage::Down { pid, monitor_ref, reason }),
        },
{
}

/// The notices that were brought are those of all that was brought, one for one.
pub proof fn law_every_notice_counts(delivered: Seq<Delivered>, i: int)
    ensures
        process_table::notices_of(delivered).len() == delivered.len(),
        0 <= i < delivered.len() ==> process_table::notices_of(delivered)[i] == delivered[i].notice,
{
}

/// A notice is for the one whom it names.
pub proof fn law_a_notice_is_for_whom_it_names(notice: Notice)
    ensures
        match notice {
            Notice::Exit { to, .. } => process_table::recipient(notice) == to,
            Notice::Kill { to, .. } => process_table::recipient(notice) == to,
            Notice::Down { to, .. } => process_table::recipient(notice) == to,
        },
{
}

/// A process is alive if and only if it is there and its token was not found
/// cancelled.
pub proof fn law_alive_is_there_and_not_cancelled(liveness: Liveness)
    ensures
        match liveness {
            Liveness::Absent => !liveness.alive(),
            Liveness::Found(looked) => liveness.alive() != looked.cancelled(),
        },
{
}

/// In a table in order links go both ways and join two different processes, and
/// links and monitors only concern those that are there.
pub proof fn law_order_leaves_nothing_dangling<S>(
    table: Processes<S>,
    a: Pid,
    b: Pid,
    m: MonitorRef,
)
    requires
        table.wf(),
    ensures
        table.links.contains((a, b)) ==> table.links.contains((b, a)) && a != b
            && table.alive.dom().contains(a) && table.alive.dom().contains(b),
        table.monitors.dom().contains(m) ==> table.alive.dom().contains(table.monitors[m].0)
            && table.alive.dom().contains(table.monitors[m].1) && m.spec_id() < table.next_monitor,
{
    assert(table.linked(a, b) ==> table.linked(b, a));
}

} // verus!
