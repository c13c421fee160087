use spawned_concurrency::error::GenServerError;
use spawned_concurrency::tasks::callback::{First, Outcome};
use spawned_concurrency::tasks::gen_server::{
    conclude_call_handler, conclude_cast_handler, default_call, default_cast, default_init,
    default_teardown, CallResponse, CastResponse, GenServer, GenServerInMsg, InitResult,
};
use spawned_concurrency::tasks::gen_server_handle::{
    conclude_call, conclude_send, message_on, GenServerHandle,
};
use spawned_concurrency::tasks::gen_server_loop::{
    Command, Event, Inbox, Lifecycle, Step,
};
use tokio::sync::oneshot;

/// A server with nothing but a number.
#[derive(Debug, PartialEq)]
struct Number(u32);

impl GenServer for Number {
    type CallMsg = &'static str;
    type CastMsg = u8;
    type OutMsg = String;
    type Error = ();
}

/// A server that has been initialized and waits for messages.
fn receiving() -> Lifecycle<Number> {
    let (lifecycle, command) = Lifecycle::start(Number(0));
    assert!(matches!(command, Command::Init { server: Number(0) }));
    let step = lifecycle.next(Event::Initialized {
        result: Ok(InitResult::Success(Number(1))),
    });
    assert!(goes_on(&step, 1));
    assert!(step.reply.is_none());
    step.lifecycle
}

fn stops(step: &Step<Number>, number: u32) -> bool {
    step.cancel
        && matches!(&step.command, Command::Teardown { server } if server.0 == number)
        && matches!(step.lifecycle, Lifecycle::TearingDown)
}

fn goes_on(step: &Step<Number>, number: u32) -> bool {
    !step.cancel
        && matches!(step.command, Command::Receive)
        && matches!(&step.lifecycle, Lifecycle::Receiving { server } if server.0 == number)
}

#[test]
fn a_server_that_is_not_initialized_is_torn_down_or_has_nothing_to_tear_down() {
    let (lifecycle, _) = Lifecycle::start(Number(0));
    let step = lifecycle.next(Event::Initialized {
        result: Ok(InitResult::NoSuccess(Number(4))),
    });
    assert!(stops(&step, 4));

    let (lifecycle, _) = Lifecycle::<Number>::start(Number(0));
    let step = lifecycle.next(Event::Initialized { result: Err(()) });
    assert!(step.cancel);
    assert!(matches!(step.lifecycle, Lifecycle::Finished));
    assert!(matches!(step.command, Command::Finish { result: Ok(()) }));
}

#[test]
fn cancellation_stops_a_server_that_receives() {
    let lifecycle = receiving();
    let mut inbox = Inbox::new();
    assert!(lifecycle.receive(&mut inbox).is_none());
    inbox.mailbox.put(GenServerInMsg::Cast { message: 1 });
    inbox.mailbox.put(GenServerInMsg::Cast { message: 2 });
    assert!(matches!(
        lifecycle.receive(&mut inbox),
        Some(Event::Message {
            message: Some(GenServerInMsg::Cast { message: 1 })
        })
    ));
    inbox.cancelled = true;
    let event = lifecycle.receive(&mut inbox).unwrap();
    assert!(matches!(
        inbox.mailbox.take(),
        Some(GenServerInMsg::Cast { message: 2 })
    ));
    let step = lifecycle.next(event);
    assert!(stops(&step, 1));
    let end = step.lifecycle.next(Event::TornDown { result: Err(()) });
    assert!(!end.cancel);
    assert!(matches!(end.command, Command::Finish { result: Ok(()) }));
    assert!(!end.lifecycle.is_awaiting(&Event::Cancelled));
}

#[test]
fn a_server_without_senders_stops() {
    let step = receiving().next(Event::Message { message: None });
    assert!(stops(&step, 1));
}

#[test]
fn a_cast_is_handled() {
    for (outcome, going_on) in [
        (Outcome::Returned(CastResponse::NoReply), true),
        (Outcome::Returned(CastResponse::Stop), false),
        (Outcome::Returned(CastResponse::Unused), false),
        (Outcome::Panicked, false),
    ] {
        let step = receiving().next(Event::Message {
            message: Some(GenServerInMsg::Cast { message: 7 }),
        });
        assert!(matches!(
            step.command,
            Command::HandleCast {
                server: Number(1),
                message: 7
            }
        ));
        let step = step.lifecycle.next(Event::CastHandled {
            server: Number(6),
            outcome,
        });
        assert!(step.reply.is_none());
        assert_eq!(goes_on(&step, 6), going_on);
        assert_eq!(stops(&step, 6), !going_on);
    }
}

#[test]
fn a_call_is_handled_and_answered_whatever_happens() {
    for (outcome, response, going_on) in [
        (
            Outcome::Returned(CallResponse::Reply("yes".to_string())),
            Ok("yes".to_string()),
            true,
        ),
        (
            Outcome::Returned(CallResponse::Stop("last".to_string())),
            Ok("last".to_string()),
            false,
        ),
        (
            Outcome::Returned(CallResponse::Unused),
            Err(GenServerError::CallMsgUnused),
            false,
        ),
        (Outcome::Panicked, Err(GenServerError::Callback), false),
    ] {
        let (sender, mut waiting) = oneshot::channel();
        let step = receiving().next(Event::Message {
            message: Some(GenServerInMsg::Call {
                sender,
                message: "well?",
            }),
        });
        assert!(matches!(
            step.command,
            Command::HandleCall {
                server: Number(1),
                message: "well?"
            }
        ));
        let step = step.lifecycle.next(Event::CallHandled {
            server: Number(8),
            outcome,
        });
        assert_eq!(goes_on(&step, 8), going_on);
        assert_eq!(stops(&step, 8), !going_on);
        let reply = step.reply.unwrap();
        assert_eq!(reply.response, response);
        reply.sender.send(reply.response).unwrap();
        assert_eq!(waiting.try_recv(), Ok(response));
    }
}

#[test]
fn a_server_awaits_the_end_of_what_it_does_and_nothing_else() {
    let (lifecycle, _) = Lifecycle::start(Number(0));
    assert!(lifecycle.is_awaiting(&Event::Initialized { result: Err(()) }));
    assert!(!lifecycle.is_awaiting(&Event::Message { message: None }));
    let handling = receiving()
        .next(Event::Message {
            message: Some(GenServerInMsg::Cast { message: 0 }),
        })
        .lifecycle;
    assert!(!handling.is_awaiting(&Event::Cancelled));
    assert!(!handling.is_awaiting(&Event::CallHandled {
        server: Number(0),
        outcome: Outcome::Panicked
    }));
    assert!(handling.is_awaiting(&Event::CastHandled {
        server: Number(0),
        outcome: Outcome::Panicked
    }));
}

#[test]
fn the_defaults_of_a_server() {
    assert!(matches!(
        default_init(Number(3)),
        Ok(InitResult::Success(Number(3)))
    ));
    assert!(matches!(default_call::<Number>(), CallResponse::Unused));
    assert_eq!(default_cast(), CastResponse::Unused);
    assert_eq!(default_teardown::<Number>(), Ok(()));
}

#[test]
fn what_follows_from_how_a_servers_handler_ended() {
    assert_eq!(
        conclude_call_handler::<Number>(Outcome::Returned(CallResponse::Stop("s".to_string()))),
        (false, Ok("s".to_string()))
    );
    assert_eq!(
        conclude_call_handler::<Number>(Outcome::Returned(CallResponse::Unused)),
        (false, Err(GenServerError::CallMsgUnused))
    );
    assert!(conclude_cast_handler(Outcome::Returned(
        CastResponse::NoReply
    )));
    assert!(!conclude_cast_handler(Outcome::Returned(
        CastResponse::Unused
    )));
}

#[test]
fn what_a_caller_of_a_server_gets() {
    assert_eq!(conclude_call::<u8, (), ()>(Ok(Ok(Ok(3)))), Ok(3));
    assert_eq!(
        conclude_call::<u8, (), ()>(Ok(Ok(Err(GenServerError::CallMsgUnused)))),
        Err(GenServerError::CallMsgUnused)
    );
    assert_eq!(
        conclude_call::<u8, (), ()>(Ok(Err(()))),
        Err(GenServerError::Server)
    );
    assert_eq!(
        conclude_call::<u8, (), ()>(Err(())),
        Err(GenServerError::CallTimeout)
    );
    assert_eq!(conclude_send(true), Ok(()));
    assert_eq!(conclude_send(false), Err(GenServerError::Server));
}

#[test]
fn a_servers_answer_comes_back_to_the_caller() {
    let launch = GenServerHandle::new(Number(1));
    let mut rx = launch.rx.into_receiver();
    let call = launch.handle.begin_call("well?").map_err(|r| r.error).unwrap();
    let mut waiting = call.reply.into_receiver();
    assert!(launch.handle.cast(3).is_ok_and(|posted| posted.is_accepted()));

    let advance = launch.own.advance(
        launch.lifecycle,
        Event::Initialized {
            result: Ok(InitResult::Success(Number(1))),
        },
    );
    let message = rx.try_recv().ok();
    let advance = launch
        .own
        .advance(advance.lifecycle, Event::Message { message });
    assert!(matches!(
        advance.command,
        Command::HandleCall {
            server: Number(1),
            message: "well?"
        }
    ));
    let advance = launch.own.advance(
        advance.lifecycle,
        Event::CallHandled {
            server: Number(2),
            outcome: Outcome::Returned(CallResponse::Reply("well".to_string())),
        },
    );
    assert!(advance.replied.unwrap().is_accepted());
    assert!(advance.cancelled.is_none());
    assert_eq!(waiting.try_recv(), Ok(Ok("well".to_string())));

    let message = rx.try_recv().ok();
    let advance = launch
        .own
        .advance(advance.lifecycle, Event::Message { message });
    assert!(matches!(
        advance.command,
        Command::HandleCast {
            server: Number(2),
            message: 3
        }
    ));
    assert!(!launch.handle.cancellation_token().is_cancelled());
    let advance = launch.own.advance(
        advance.lifecycle,
        Event::CastHandled {
            server: Number(2),
            outcome: Outcome::Panicked,
        },
    );
    assert!(advance.cancelled.is_some());
    assert!(launch.handle.cancellation_token().is_cancelled());
}

#[test]
fn a_server_is_sent_a_message_only_if_the_signal_came_first() {
    assert!(matches!(
        message_on::<Number>(First::Signal, 5),
        Some(GenServerInMsg::Cast { message: 5 })
    ));
    assert!(message_on::<Number>(First::Cancelled, 5).is_none());
}
