use spawned_concurrency::pid::PidAllocator;
use spawned_concurrency::process_table::{counts_as_alive, Notice, ProcessTable};
use spawned_concurrency::{ExitReason, LinkError, MonitorRef, Pid};

/// A table with three processes.
fn three() -> (ProcessTable<u8>, Pid, Pid, Pid) {
    let mut pids = PidAllocator::new();
    let mut table = ProcessTable::new();
    let (a, b, c) = (pids.allocate(), pids.allocate(), pids.allocate());
    table.register(a, 1);
    table.register(b, 2);
    table.register(c, 3);
    (table, a, b, c)
}

fn crash() -> ExitReason {
    ExitReason::Error("out of order".to_string())
}

/// Who is told, who ends, and what monitors report, in order of process.
fn summary(notices: &[Notice]) -> (Vec<Pid>, Vec<Pid>, Vec<(Pid, MonitorRef)>) {
    let (mut told, mut killed, mut down) = (Vec::new(), Vec::new(), Vec::new());
    for notice in notices {
        match notice {
            Notice::Exit { to, .. } => told.push(*to),
            Notice::Kill { to, .. } => killed.push(*to),
            Notice::Down {
                to, monitor_ref, ..
            } => down.push((*to, *monitor_ref)),
        }
    }
    told.sort_by_key(|pid| pid.id());
    killed.sort_by_key(|pid| pid.id());
    down.sort_by_key(|pair| pair.1.id());
    (told, killed, down)
}

#[test]
fn identifiers_count_up_from_one() {
    let mut pids = PidAllocator::new();
    assert!(pids.has_next());
    assert_eq!(pids.allocate().id(), 1);
    assert_eq!(pids.allocate().id(), 2);
    assert_eq!(pids.allocate().id(), 3);
}

#[test]
fn an_identifier_is_written_in_full() {
    let mut pids = PidAllocator::new();
    assert_eq!(pids.allocate().text(), "<0.1>");
    for _ in 2..1204 {
        pids.allocate();
    }
    assert_eq!(pids.allocate().text(), "<0.1204>");
}

#[test]
fn reasons_are_told_apart() {
    assert!(ExitReason::Normal.is_normal());
    assert!(!crash().is_normal());
    assert_eq!(crash().clone(), crash());
}

#[test]
fn a_process_is_there_until_it_ends() {
    let (mut table, a, b, _) = three();
    assert!(table.contains(a));
    assert!(table.exit(a, &ExitReason::Normal).is_empty());
    assert!(!table.contains(a));
    assert!(table.contains(b));
    assert!(table.exit(a, &crash()).is_empty());
}

#[test]
fn a_link_goes_both_ways() {
    let (mut table, a, b, c) = three();
    assert_eq!(table.link(a, b), Ok(()));
    assert_eq!(table.get_links(a), vec![b]);
    assert_eq!(table.get_links(b), vec![a]);
    assert_eq!(table.get_links(c), vec![]);
}

#[test]
fn linking_twice_is_linking_once() {
    let (mut table, a, b, _) = three();
    assert_eq!(table.link(a, b), Ok(()));
    assert_eq!(table.link(b, a), Ok(()));
    assert_eq!(table.get_links(a), vec![b]);
    table.unlink(a, b);
    assert_eq!(table.get_links(a), vec![]);
    assert_eq!(table.get_links(b), vec![]);
}

#[test]
fn links_that_cannot_be_made() {
    let (mut table, a, b, _) = three();
    assert_eq!(table.link(a, a), Err(LinkError::SelfLink));
    table.exit(b, &ExitReason::Normal);
    assert_eq!(table.link(a, b), Err(LinkError::ProcessNotFound(b)));
    assert_eq!(table.link(b, a), Err(LinkError::ProcessNotFound(b)));
    assert_eq!(table.get_links(a), vec![]);
}

#[test]
fn monitors_that_cannot_be_made() {
    let (mut table, a, b, _) = three();
    table.exit(b, &ExitReason::Normal);
    assert!(table.can_monitor());
    assert_eq!(table.monitor(a, b), Err(LinkError::ProcessNotFound(b)));
    assert_eq!(table.monitor(b, a), Err(LinkError::ProcessNotFound(b)));
}

#[test]
fn a_crash_spreads_to_those_that_do_not_trap() {
    let (mut table, a, b, c) = three();
    table.link(a, b).unwrap();
    table.link(c, a).unwrap();
    table.set_trap_exit(c, true);
    assert!(table.is_trapping_exit(c));
    assert!(!table.is_trapping_exit(b));
    let notices = table.exit(a, &crash());
    assert_eq!(summary(&notices), (vec![c], vec![b], vec![]));
    for notice in &notices {
        match notice {
            Notice::Exit { to, pid, reason } => {
                assert_eq!((*to, *pid), (c, a));
                assert_eq!(*reason, crash());
            }
            Notice::Kill { to, reason } => {
                assert_eq!(*to, b);
                assert_eq!(*reason, crash());
            }
            Notice::Down { .. } => panic!("nobody monitors"),
        }
    }
    assert_eq!(table.get_links(b), vec![]);
    assert_eq!(table.get_links(c), vec![]);
}

#[test]
fn a_normal_end_spares_others_and_is_told_to_those_that_trap() {
    let (mut table, a, b, c) = three();
    table.link(a, b).unwrap();
    table.link(a, c).unwrap();
    table.set_trap_exit(c, true);
    let notices = table.exit(a, &ExitReason::Normal);
    assert_eq!(summary(&notices), (vec![c], vec![], vec![]));
}

#[test]
fn trapping_can_be_given_up() {
    let (mut table, a, b, _) = three();
    table.link(a, b).unwrap();
    table.set_trap_exit(b, true);
    table.set_trap_exit(b, false);
    assert!(!table.is_trapping_exit(b));
    assert_eq!(
        summary(&table.exit(a, &crash())),
        (vec![], vec![b], vec![])
    );
    table.set_trap_exit(a, true);
    assert!(!table.is_trapping_exit(a));
}

#[test]
fn a_monitor_goes_one_way() {
    let (mut table, a, b, _) = three();
    let monitor_ref = table.monitor(a, b).unwrap();
    assert!(table.exit(a, &crash()).is_empty());
    let (mut table, a, b, _) = three();
    assert_eq!(table.monitor(a, b), Ok(monitor_ref));
    let notices = table.exit(b, &crash());
    assert_eq!(
        summary(&notices),
        (vec![], vec![], vec![(a, monitor_ref)])
    );
    match &notices[0] {
        Notice::Down { pid, reason, .. } => {
            assert_eq!(*pid, b);
            assert_eq!(*reason, crash());
        }
        _ => panic!("only a monitor is due"),
    }
}

#[test]
fn every_monitor_reports() {
    let (mut table, a, b, c) = three();
    let first = table.monitor(a, c).unwrap();
    let second = table.monitor(a, c).unwrap();
    let third = table.monitor(b, c).unwrap();
    assert_eq!((first.id(), second.id(), third.id()), (0, 1, 2));
    let notices = table.exit(c, &ExitReason::Normal);
    assert_eq!(
        summary(&notices),
        (vec![], vec![], vec![(a, first), (a, second), (b, third)])
    );
}

#[test]
fn a_cancelled_monitor_is_silent() {
    let (mut table, a, b, _) = three();
    let kept = table.monitor(a, b).unwrap();
    let cancelled = table.monitor(a, b).unwrap();
    table.demonitor(cancelled);
    table.demonitor(cancelled);
    assert_eq!(
        summary(&table.exit(b, &crash())),
        (vec![], vec![], vec![(a, kept)])
    );
}

#[test]
fn an_unlinked_process_is_left_alone() {
    let (mut table, a, b, c) = three();
    table.link(a, b).unwrap();
    table.link(a, c).unwrap();
    table.unlink(b, a);
    assert_eq!(
        summary(&table.exit(a, &crash())),
        (vec![], vec![c], vec![])
    );
}

#[test]
fn an_end_concerns_nobody_else() {
    let (mut table, a, b, c) = three();
    table.link(b, c).unwrap();
    table.set_trap_exit(b, true);
    let monitor_ref = table.monitor(c, b).unwrap();
    table.exit(a, &crash());
    assert_eq!(table.get_links(b), vec![c]);
    assert!(table.is_trapping_exit(b));
    assert_eq!(
        summary(&table.exit(b, &crash())),
        (vec![], vec![c], vec![(c, monitor_ref)])
    );
}

#[test]
fn alive_is_what_is_there_and_not_made_to_end() {
    assert!(counts_as_alive(Some(true)));
    assert!(!counts_as_alive(Some(false)));
    assert!(!counts_as_alive(None));
}
