use spawned_concurrency::error::ActorError;
use spawned_concurrency::process_table::Receipt;
use spawned_concurrency::tasks::actor::{
    conclude_crash, conclude_info, conclude_message, conclude_request, default_info, default_init,
    default_message, default_request, default_teardown, Actor, ActorInMsg, InfoResult, InitResult,
    MessageResult, RequestResult,
};
use spawned_concurrency::tasks::actor_loop::{
    Command, Event, Inbox, Lifecycle, Stage, Step,
};
use spawned_concurrency::tasks::actor_ref::{
    conclude_call, conclude_send, exit_reason, message_on, ActorRef, Launch, Node,
};
use spawned_concurrency::tasks::callback::{First, Outcome};
use spawned_concurrency::tasks::inbox::Queue;
use spawned_concurrency::{ExitReason, HasPid, SystemMessage};
use tokio::sync::oneshot;

/// An actor with nothing but a number.
#[derive(Debug, PartialEq)]
struct Number(u32);

impl Actor for Number {
    type Request = &'static str;
    type Message = u8;
    type Reply = String;
    type Error = ();
}

/// An actor that has been initialized and waits for messages.
fn receiving() -> Lifecycle<Number> {
    let (lifecycle, command) = Lifecycle::start(Number(0));
    assert!(matches!(command, Command::Init { actor: Number(0) }));
    let step = lifecycle.next(Event::Initialized {
        result: Ok(InitResult::Success(Number(1))),
    });
    assert!(matches!(step.command, Command::Receive));
    assert!(!step.cancel);
    assert!(step.reply.is_none());
    step.lifecycle
}

/// Whether the actor stops here, in this state, and whether as by a crash.
fn stops(step: &Step<Number>, number: u32, result: Result<(), ActorError>) -> bool {
    step.cancel
        && matches!(&step.command, Command::Teardown { actor } if actor.0 == number)
        && matches!(&step.lifecycle.stage, Stage::TearingDown { result: r } if *r == result)
}

fn goes_on(step: &Step<Number>, number: u32) -> bool {
    !step.cancel
        && matches!(step.command, Command::Receive)
        && matches!(&step.lifecycle.stage, Stage::Receiving { actor } if actor.0 == number)
}

#[test]
fn an_actor_that_is_not_initialized_is_torn_down_or_has_nothing_to_tear_down() {
    let (lifecycle, _) = Lifecycle::start(Number(0));
    let step = lifecycle.next(Event::Initialized {
        result: Ok(InitResult::NoSuccess(Number(4))),
    });
    assert!(stops(&step, 4, Ok(())));

    let (lifecycle, _) = Lifecycle::<Number>::start(Number(0));
    let step = lifecycle.next(Event::Initialized { result: Err(()) });
    assert!(step.cancel);
    assert!(matches!(step.lifecycle.stage, Stage::Finished));
    assert!(matches!(
        step.command,
        Command::Finish {
            result: Err(ActorError::Initialization)
        }
    ));
}

#[test]
fn cancellation_stops_an_actor_that_receives() {
    let step = receiving().next(Event::Cancelled);
    assert!(stops(&step, 1, Ok(())));
    assert!(step.reply.is_none());
    let end = step.lifecycle.next(Event::TornDown { result: Err(()) });
    assert!(!end.cancel);
    assert!(matches!(end.command, Command::Finish { result: Ok(()) }));
    assert!(!end.lifecycle.is_awaiting(&Event::Cancelled));
    assert!(!end
        .lifecycle
        .is_awaiting(&Event::TornDown { result: Ok(()) }));
}

#[test]
fn an_actor_without_senders_stops() {
    let step = receiving().next(Event::Message { message: None });
    assert!(stops(&step, 1, Ok(())));
}

/// An inbox in which ordinary messages came before a system message.
fn filled() -> Inbox<Number> {
    let mut inbox = Inbox::new();
    inbox.mailbox.put(ActorInMsg::Cast { message: 7 });
    inbox.mailbox.put(ActorInMsg::Cast { message: 8 });
    inbox.system.put(SystemMessage::Timeout);
    inbox
}

#[test]
fn nothing_is_received_where_nothing_has_come() {
    let mut inbox = Inbox::new();
    assert!(receiving().receive(&mut inbox).is_none());
    inbox.mailbox.close();
    assert!(inbox.mailbox.is_closed());
    assert!(matches!(
        receiving().receive(&mut inbox),
        Some(Event::Message { message: None })
    ));
}

#[test]
fn system_messages_come_before_ordinary_ones_until_there_are_no_more() {
    let lifecycle = receiving();
    let mut inbox = filled();
    assert!(matches!(
        lifecycle.receive(&mut inbox),
        Some(Event::System {
            message: Some(SystemMessage::Timeout)
        })
    ));
    assert!(matches!(
        lifecycle.receive(&mut inbox),
        Some(Event::Message {
            message: Some(ActorInMsg::Cast { message: 7 })
        })
    ));
    inbox.system.close();
    let event = lifecycle.receive(&mut inbox).unwrap();
    assert!(matches!(&event, Event::System { message: None }));
    let step = lifecycle.next(event);
    assert!(goes_on(&step, 1));
    assert!(!step
        .lifecycle
        .is_awaiting(&Event::System { message: None }));

    let event = step.lifecycle.receive(&mut inbox).unwrap();
    assert!(matches!(
        &event,
        Event::Message {
            message: Some(ActorInMsg::Cast { message: 8 })
        }
    ));
    let step = step.lifecycle.next(event);
    let step = step.lifecycle.next(Event::MessageHandled {
        actor: Number(2),
        outcome: Outcome::Returned(MessageResult::NoReply),
    });
    assert!(goes_on(&step, 2));
    assert!(!step.lifecycle.system_open);
    assert!(step.lifecycle.receive(&mut inbox).is_none());
}

#[test]
fn cancellation_comes_before_all_and_takes_nothing() {
    let lifecycle = receiving();
    let mut inbox = filled();
    inbox.cancelled = true;
    assert!(matches!(
        lifecycle.receive(&mut inbox),
        Some(Event::Cancelled)
    ));
    assert!(matches!(
        inbox.system.take(),
        Some(SystemMessage::Timeout)
    ));
    assert!(matches!(
        inbox.mailbox.take(),
        Some(ActorInMsg::Cast { message: 7 })
    ));
    assert!(matches!(
        inbox.mailbox.take(),
        Some(ActorInMsg::Cast { message: 8 })
    ));
    assert!(inbox.mailbox.take().is_none());
}

#[test]
fn a_queue_gives_what_came_first_and_then_its_end() {
    let mut queue = Queue::new();
    assert!(!queue.is_ready());
    queue.put('a');
    queue.put('b');
    assert!(queue.is_ready());
    assert_eq!(queue.take(), Some('a'));
    queue.put('c');
    queue.close();
    assert_eq!(queue.take(), Some('b'));
    assert_eq!(queue.take(), Some('c'));
    assert!(queue.is_ready());
    assert_eq!(queue.take(), None);
}

#[test]
fn a_late_reply_is_not_the_answer_to_the_next_request() {
    let launch = launched(&mut Node::new(), 1);
    let mut rx = launch.rx.into_receiver();
    let late = launch.handle.begin_call("slow").map_err(|r| r.error).unwrap();
    drop(late.reply);
    let next = launch.handle.begin_call("fast").map_err(|r| r.error).unwrap();
    let mut waiting = next.reply.into_receiver();
    let mut lifecycle = launch.lifecycle;
    for (reply, accepted) in [("late", false), ("soon", true)] {
        let message = rx.try_recv().ok();
        let advance = launch.own.advance(lifecycle, Event::Message { message });
        let advance = launch.own.advance(
            advance.lifecycle,
            Event::RequestHandled {
                actor: Number(1),
                outcome: Outcome::Returned(RequestResult::Reply(reply.to_string())),
            },
        );
        assert_eq!(advance.replied.unwrap().is_accepted(), accepted);
        assert!(advance.cancelled.is_none());
        lifecycle = advance.lifecycle;
    }
    assert_eq!(waiting.try_recv(), Ok(Ok("soon".to_string())));
}

#[test]
fn a_system_message_is_handled() {
    for (outcome, going_on, result) in [
        (Outcome::Returned(InfoResult::NoReply), true, Ok(())),
        (Outcome::Returned(InfoResult::Stop), false, Ok(())),
        (Outcome::Panicked, false, Err(ActorError::Callback)),
    ] {
        let step = receiving().next(Event::System {
            message: Some(SystemMessage::Timeout),
        });
        assert!(matches!(
            step.command,
            Command::HandleInfo {
                actor: Number(1),
                message: SystemMessage::Timeout
            }
        ));
        let step = step.lifecycle.next(Event::InfoHandled {
            actor: Number(5),
            outcome,
        });
        assert!(step.reply.is_none());
        if going_on {
            assert!(goes_on(&step, 5));
        } else {
            assert!(stops(&step, 5, result));
        }
    }
}

#[test]
fn a_message_is_handled() {
    for (outcome, going_on, result) in [
        (Outcome::Returned(MessageResult::NoReply), true, Ok(())),
        (Outcome::Returned(MessageResult::Stop), false, Ok(())),
        (Outcome::Returned(MessageResult::Unused), false, Ok(())),
        (Outcome::Panicked, false, Err(ActorError::Callback)),
    ] {
        let step = receiving().next(Event::Message {
            message: Some(ActorInMsg::Cast { message: 7 }),
        });
        assert!(matches!(
            step.command,
            Command::HandleMessage {
                actor: Number(1),
                message: 7
            }
        ));
        let step = step.lifecycle.next(Event::MessageHandled {
            actor: Number(6),
            outcome,
        });
        if going_on {
            assert!(goes_on(&step, 6));
        } else {
            assert!(stops(&step, 6, result));
        }
    }
}

#[test]
fn a_request_is_handled_and_answered_whatever_happens() {
    for (outcome, response, going_on, result) in [
        (
            Outcome::Returned(RequestResult::Reply("yes".to_string())),
            Ok("yes".to_string()),
            true,
            Ok(()),
        ),
        (
            Outcome::Returned(RequestResult::Stop("last".to_string())),
            Ok("last".to_string()),
            false,
            Ok(()),
        ),
        (
            Outcome::Returned(RequestResult::Unused),
            Err(ActorError::RequestUnused),
            false,
            Ok(()),
        ),
        (
            Outcome::Panicked,
            Err(ActorError::Callback),
            false,
            Err(ActorError::Callback),
        ),
    ] {
        let (sender, mut waiting) = oneshot::channel();
        let step = receiving().next(Event::Message {
            message: Some(ActorInMsg::Call {
                sender,
                message: "well?",
            }),
        });
        assert!(matches!(
            step.command,
            Command::HandleRequest {
                actor: Number(1),
                message: "well?"
            }
        ));
        let step = step.lifecycle.next(Event::RequestHandled {
            actor: Number(8),
            outcome,
        });
        if going_on {
            assert!(goes_on(&step, 8));
        } else {
            assert!(stops(&step, 8, result));
        }
        let reply = step.reply.unwrap();
        assert_eq!(reply.response, response);
        reply.sender.send(reply.response).unwrap();
        assert_eq!(waiting.try_recv(), Ok(response));
    }
}

#[test]
fn an_actor_awaits_the_end_of_what_it_does_and_nothing_else() {
    let (lifecycle, _) = Lifecycle::start(Number(0));
    assert!(lifecycle.is_awaiting(&Event::Initialized { result: Err(()) }));
    assert!(!lifecycle.is_awaiting(&Event::Cancelled));
    let lifecycle = receiving();
    assert!(lifecycle.is_awaiting(&Event::Cancelled));
    assert!(lifecycle.is_awaiting(&Event::System { message: None }));
    assert!(lifecycle.is_awaiting(&Event::Message { message: None }));
    assert!(!lifecycle.is_awaiting(&Event::Initialized { result: Err(()) }));
    let handling = lifecycle
        .next(Event::Message {
            message: Some(ActorInMsg::Cast { message: 0 }),
        })
        .lifecycle;
    assert!(!handling.is_awaiting(&Event::Cancelled));
    assert!(handling.is_awaiting(&Event::MessageHandled {
        actor: Number(0),
        outcome: Outcome::Panicked
    }));
    assert!(!handling.is_awaiting(&Event::InfoHandled {
        actor: Number(0),
        outcome: Outcome::Panicked
    }));
}

#[test]
fn the_defaults_of_an_actor() {
    assert!(matches!(
        default_init(Number(3)),
        Ok(InitResult::Success(Number(3)))
    ));
    assert!(matches!(
        default_request::<Number>(),
        RequestResult::Unused
    ));
    assert_eq!(default_message(), MessageResult::Unused);
    assert_eq!(default_info(), InfoResult::NoReply);
    assert_eq!(default_teardown::<Number>(), Ok(()));
}

#[test]
fn what_follows_from_how_an_actors_handler_ended() {
    assert_eq!(
        conclude_request::<Number>(Outcome::Returned(RequestResult::Reply("r".to_string()))),
        (true, Ok("r".to_string()))
    );
    assert_eq!(
        conclude_request::<Number>(Outcome::Panicked),
        (false, Err(ActorError::Callback))
    );
    assert!(conclude_message(Outcome::Returned(MessageResult::NoReply)));
    assert!(!conclude_message(Outcome::Panicked));
    assert!(conclude_info(Outcome::Returned(InfoResult::NoReply)));
    assert!(!conclude_info(Outcome::Returned(InfoResult::Stop)));
    assert_eq!(
        conclude_crash(&Outcome::Returned(InfoResult::Stop)),
        Ok(())
    );
    assert_eq!(
        conclude_crash::<InfoResult>(&Outcome::Panicked),
        Err(ActorError::Callback)
    );
}

#[test]
fn what_a_caller_of_an_actor_gets() {
    assert_eq!(conclude_call::<u8, (), ()>(Ok(Ok(Ok(3)))), Ok(3));
    assert_eq!(
        conclude_call::<u8, (), ()>(Ok(Ok(Err(ActorError::Callback)))),
        Err(ActorError::Callback)
    );
    assert_eq!(
        conclude_call::<u8, (), ()>(Ok(Err(()))),
        Err(ActorError::Server)
    );
    assert_eq!(
        conclude_call::<u8, (), ()>(Err(())),
        Err(ActorError::RequestTimeout)
    );
    assert_eq!(conclude_send(true), Ok(()));
    assert_eq!(conclude_send(false), Err(ActorError::Server));
}

#[test]
fn why_an_actor_ended() {
    let crashed = ExitReason::Error("Actor crashed".to_string());
    assert_eq!(exit_reason(&Ok(()), false), ExitReason::Normal);
    assert_eq!(exit_reason(&Ok(()), true), crashed);
    assert_eq!(
        exit_reason(&Err(ActorError::Initialization), false),
        crashed
    );
    assert_eq!(exit_reason(&Err(ActorError::Callback), true), crashed);
}

/// Prepares an actor and lets it be initialized.
fn launched(node: &mut Node, number: u32) -> Launch<Number> {
    let mut launch = ActorRef::new(node, Number(number));
    assert!(matches!(&launch.command, Command::Init { actor } if actor.0 == number));
    let advance = launch.own.advance(
        launch.lifecycle,
        Event::Initialized {
            result: Ok(InitResult::Success(Number(number))),
        },
    );
    assert!(advance.replied.is_none());
    assert!(advance.cancelled.is_none());
    launch.lifecycle = advance.lifecycle;
    launch.command = advance.command;
    launch
}

#[test]
fn an_answer_comes_back_to_the_caller() {
    let launch = launched(&mut Node::new(), 1);
    let mut rx = launch.rx.into_receiver();
    let first = launch.handle.begin_call("first").map_err(|r| r.error).unwrap();
    let second = launch.handle.begin_call("second").map_err(|r| r.error).unwrap();
    assert!(first.posted.is_accepted());
    let mut waiting = [first.reply.into_receiver(), second.reply.into_receiver()];

    let mut lifecycle = launch.lifecycle;
    for (i, name) in ["first", "second"].into_iter().enumerate() {
        let message = rx.try_recv().ok();
        let advance = launch.own.advance(lifecycle, Event::Message { message });
        assert!(matches!(
            &advance.command,
            Command::HandleRequest { message, .. } if *message == name
        ));
        assert!(advance.replied.is_none());
        assert!(waiting[i].try_recv().is_err());
        let advance = launch.own.advance(
            advance.lifecycle,
            Event::RequestHandled {
                actor: Number(2),
                outcome: Outcome::Returned(RequestResult::Reply(format!("to {}", name))),
            },
        );
        assert!(advance.replied.unwrap().is_accepted());
        assert!(advance.cancelled.is_none());
        assert_eq!(waiting[i].try_recv(), Ok(Ok(format!("to {}", name))));
        lifecycle = advance.lifecycle;
    }
    assert!(!launch.handle.cancellation_token().is_cancelled());
}

#[test]
fn an_answer_that_nobody_waits_for_is_dropped() {
    let launch = launched(&mut Node::new(), 1);
    let mut rx = launch.rx.into_receiver();
    drop(launch.handle.begin_call("anyone?").map_err(|r| r.error).unwrap().reply);
    let message = rx.try_recv().ok();
    let advance = launch
        .own
        .advance(launch.lifecycle, Event::Message { message });
    let advance = launch.own.advance(
        advance.lifecycle,
        Event::RequestHandled {
            actor: Number(1),
            outcome: Outcome::Returned(RequestResult::Stop("no".to_string())),
        },
    );
    assert!(!advance.replied.unwrap().is_accepted());
    assert!(advance.cancelled.is_some());
    assert!(launch.handle.cancellation_token().is_cancelled());
}

#[test]
fn those_who_are_to_learn_of_an_end_do() {
    let mut node = Node::new();
    let ended = launched(&mut node, 1);
    let linked = launched(&mut node, 2);
    let trapping = launched(&mut node, 3);
    let watching = launched(&mut node, 4);
    assert_eq!(ended.handle.pid().id(), 1);
    assert_eq!(watching.handle.pid().id(), 4);
    ended.handle.link(&mut node.table, &linked.handle).unwrap();
    ended
        .handle
        .link(&mut node.table, &trapping.handle)
        .unwrap();
    trapping.handle.trap_exit(&mut node.table, true);
    let monitor_ref = watching
        .handle
        .monitor(&mut node.table, &ended.handle)
        .unwrap();

    let delivered = node.exited(ended.handle.pid(), &Err(ActorError::Callback));
    assert_eq!(delivered.len(), 3);
    for done in &delivered {
        if let Receipt::Cancelled(cancelled) = &done.receipt {
            assert!(!node
                .table
                .is_alive(linked.handle.pid(), Some(cancelled))
                .is_alive());
        }
    }
    let posted = delivered
        .iter()
        .filter(|d| matches!(&d.receipt, Receipt::Posted(posted) if posted.is_accepted()))
        .count();
    assert_eq!(posted, 2);

    assert!(linked.handle.cancellation_token().is_cancelled());
    assert!(!linked.handle.is_alive(&node.table, &linked.handle, None).is_alive());
    assert!(linked.handle.is_alive(&node.table, &watching.handle, None).is_alive());
    assert!(!linked.handle.is_alive(&node.table, &ended.handle, None).is_alive());
    assert!(linked.system_rx.into_receiver().try_recv().is_err());

    let crashed = ExitReason::Error("Actor crashed".to_string());
    assert!(!trapping.handle.cancellation_token().is_cancelled());
    let mut told = trapping.system_rx.into_receiver();
    assert!(matches!(
        told.try_recv(),
        Ok(SystemMessage::Exit { pid, reason }) if pid == ended.handle.pid() && reason == crashed
    ));
    assert!(told.try_recv().is_err());

    let mut down = watching.system_rx.into_receiver();
    assert!(matches!(
        down.try_recv(),
        Ok(SystemMessage::Down { pid, monitor_ref: m, reason })
            if pid == ended.handle.pid() && m == monitor_ref && reason == crashed
    ));
    assert!(down.try_recv().is_err());
}

#[test]
fn a_cancelled_monitor_and_a_removed_link_are_silent() {
    let mut node = Node::new();
    let ended = launched(&mut node, 1);
    let other = launched(&mut node, 2);
    other.handle.link(&mut node.table, &ended.handle).unwrap();
    other.handle.unlink(&mut node.table, &ended.handle);
    let monitor_ref = other
        .handle
        .monitor(&mut node.table, &ended.handle)
        .unwrap();
    other.handle.demonitor(&mut node.table, monitor_ref);
    let delivered = node.exited(ended.handle.pid(), &Err(ActorError::Callback));
    assert!(delivered.is_empty());
    assert!(!other.handle.cancellation_token().is_cancelled());
}

#[test]
fn a_crash_spreads_from_one_to_the_next() {
    let mut node = Node::new();
    let first = launched(&mut node, 1);
    let second = launched(&mut node, 2);
    let third = launched(&mut node, 3);
    first.handle.link(&mut node.table, &second.handle).unwrap();
    second.handle.link(&mut node.table, &third.handle).unwrap();

    node.exited(first.handle.pid(), &Err(ActorError::Callback));
    assert!(second.handle.cancellation_token().is_cancelled());
    assert!(!third.handle.cancellation_token().is_cancelled());
    assert_eq!(node.doomed, vec![second.handle.pid()]);
    let killed = node.table.is_alive(second.handle.pid(), None);
    assert!(!killed.is_alive());

    node.exited(second.handle.pid(), &Ok(()));
    assert!(third.handle.cancellation_token().is_cancelled());
    assert_eq!(node.doomed, vec![third.handle.pid()]);

    node.exited(third.handle.pid(), &Ok(()));
    assert!(node.doomed.is_empty());
}

#[test]
fn a_stop_does_not_spread() {
    let mut node = Node::new();
    let first = launched(&mut node, 1);
    let second = launched(&mut node, 2);
    first.handle.link(&mut node.table, &second.handle).unwrap();
    first.handle.stop();
    assert!(node.exited(first.handle.pid(), &Ok(())).is_empty());
    assert!(!second.handle.cancellation_token().is_cancelled());
    assert!(node.doomed.is_empty());
}

#[test]
fn an_actor_is_sent_a_message_only_if_the_signal_came_first() {
    assert!(matches!(
        message_on::<Number>(First::Signal, 5),
        Some(ActorInMsg::Cast { message: 5 })
    ));
    assert!(message_on::<Number>(First::Cancelled, 5).is_none());
}
