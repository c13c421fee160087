//! What holds of every life of a server, whatever its callbacks do and
//! whatever it receives.
use crate::error::GenServerError;
use crate::tasks::callback::Outcome;
use crate::tasks::gen_server::{
    self, CallResponse, CastResponse, GenServer, GenServerInMsg, InitResult,
};
use crate::tasks::gen_server_handle::PendingCall;
use crate::tasks::gen_server_loop::{Command, Event, Inbox, Incoming, Lifecycle, Reply, Step};
use crate::tasks::inbox;
use tokio::sync::oneshot;
use vstd::prelude::*;

verus! {

/// Where a server stands that was started and then saw these events.
pub open spec fn state_after<G: GenServer>(events: Seq<Event<G>>) -> Lifecycle<G>
    decreases events.len(),
{
    if events.len() == 0 {
        Lifecycle::Initializing
    } else {
        state_after(events.drop_last()).spec_next(events.last()).lifecycle
    }
}

/// Whether these events can follow one another from the start on.
pub open spec fn possible<G: GenServer>(events: Seq<Event<G>>) -> bool
    decreases events.len(),
{
    events.len() == 0 || (possible(events.drop_last()) && state_after(events.drop_last()).awaits(
        events.last(),
    ))
}

/// The step that the event at `i` causes.
pub open spec fn step_at<G: GenServer>(events: Seq<Event<G>>, i: int) -> Step<G> {
    state_after(events.take(i)).spec_next(events[i])
}

/// Where the replies to the calls among these events are expected, in the
/// order of the calls.
pub open spec fn callers<G: GenServer>(events: Seq<Event<G>>) -> Seq<
    oneshot::Sender<Result<G::OutMsg, GenServerError>>,
>
    decreases events.len(),
{
    if events.len() == 0 {
        Seq::empty()
    } else {
        match events.last() {
            Event::Message { message: Some(GenServerInMsg::Call { sender, .. }) } => callers(
                events.drop_last(),
            ).push(sender),
            _ => callers(events.drop_last()),
        }
    }
}

/// Where replies have gone, in the order in which they were sent.
pub open spec fn answered<G: GenServer>(events: Seq<Event<G>>) -> Seq<
    oneshot::Sender<Result<G::OutMsg, GenServerError>>,
>
    decreases events.len(),
{
    if events.len() == 0 {
        Seq::empty()
    } else {
        match state_after(events.drop_last()).spec_next(events.last()).reply {
            Some(reply) => answered(events.drop_last()).push(reply.sender),
            None => answered(events.drop_last()),
        }
    }
}

/// How often teardown was called for.
pub open spec fn teardowns<G: GenServer>(events: Seq<Event<G>>) -> nat
    decreases events.len(),
{
    if events.len() == 0 {
        0
    } else {
        let step = state_after(events.drop_last()).spec_next(events.last());
        teardowns(events.drop_last()) + if step.command is Teardown {
            1nat
        } else {
            0
        }
    }
}

/// How often the token was cancelled by the server's own life.
pub open spec fn cancellations<G: GenServer>(events: Seq<Event<G>>) -> nat
    decreases events.len(),
{
    if events.len() == 0 {
        0
    } else {
        let step = state_after(events.drop_last()).spec_next(events.last());
        cancellations(events.drop_last()) + if step.cancel {
            1nat
        } else {
            0
        }
    }
}

/// Whether the initialization callback ended without an error.
pub open spec fn initialized<G: GenServer>(events: Seq<Event<G>>) -> bool {
    events.len() > 0 && (events[0] matches Event::Initialized { result } && result is Ok)
}

/// Whether the server has left its loop.
pub open spec fn stopped<G: GenServer>(lifecycle: Lifecycle<G>) -> bool {
    lifecycle is TearingDown || lifecycle is Finished
}

/// Every call that a server receives is answered exactly once, in the order
/// in which the calls came, through the sender that came with it, and this
/// also where the handler panics or does not handle such calls: the only
/// call without an answer is the one whose handler still runs.
pub proof fn law_each_call_is_answered_once<G: GenServer>(events: Seq<Event<G>>)
    requires
        possible(events),
    ensures
        match state_after(events) {
            Lifecycle::HandlingCall { sender } => callers(events) == answered(events).push(sender),
            _ => callers(events) == answered(events),
        },
    decreases events.len(),
{
    if events.len() > 0 {
        law_each_call_is_answered_once(events.drop_last());
    }
}

/// Initialization comes first and once, and a server whose initialization
/// ended with an error has ended.
pub proof fn law_initialization_comes_first<G: GenServer>(events: Seq<Event<G>>)
    requires
        possible(events),
    ensures
        state_after(events) is Initializing <==> events.len() == 0,
        events.len() > 0 ==> events[0] is Initialized,
        forall|i: int| 0 < i < events.len() ==> !(#[trigger] events[i] is Initialized),
        events.len() > 0 && !initialized(events) ==> events.len() == 1 && state_after(
            events,
        ) is Finished,
    decreases events.len(),
{
    if events.len() > 0 {
        let before = events.drop_last();
        law_initialization_comes_first(before);
        if before.len() > 0 {
            assert(before[0] == events[0]);
        }
        assert forall|i: int| 0 < i < events.len() implies !(#[trigger] events[i] is Initialized) by {
            if i < before.len() {
                assert(before[i] == events[i]);
            }
        }
    }
}

/// A server is torn down once, when it stops, if its initialization ended
/// without an error, and never if it ended with one.
pub proof fn law_torn_down_once<G: GenServer>(events: Seq<Event<G>>)
    requires
        possible(events),
    ensures
        teardowns(events) == (if stopped(state_after(events)) && initialized(events) {
            1nat
        } else {
            0
        }),
    decreases events.len(),
{
    law_initialization_comes_first(events);
    if events.len() > 0 {
        let before = events.drop_last();
        law_torn_down_once(before);
        law_initialization_comes_first(before);
        if before.len() > 0 {
            assert(before[0] == events[0]);
        }
    }
}

/// A server that has stopped has cancelled its token, once; one that has not
/// stopped has not. So the token is cancelled before teardown begins, and at
/// the end whatever happened.
pub proof fn law_token_is_cancelled_on_stop<G: GenServer>(events: Seq<Event<G>>)
    requires
        possible(events),
    ensures
        cancellations(events) == (if stopped(state_after(events)) {
            1nat
        } else {
            0
        }),
    decreases events.len(),
{
    if events.len() > 0 {
        law_token_is_cancelled_on_stop(events.drop_last());
    }
}

/// A server that has stopped receives and handles nothing more: all that can
/// still happen is the end of its teardown.
pub proof fn law_nothing_is_handled_after_stop<G: GenServer>(events: Seq<Event<G>>, i: int)
    requires
        possible(events),
        0 <= i < events.len(),
        stopped(state_after(events.take(i))),
    ensures
        i == events.len() - 1,
        events[i] is TornDown,
        step_at(events, i).reply is None,
        !step_at(events, i).cancel,
        step_at(events, i).command is Finish,
        state_after(events) is Finished,
    decreases events.len(),
{
    let before = events.drop_last();
    assert(before.take(before.len() as int) =~= before);
    assert(events.take(before.len() as int) =~= before);
    if i < before.len() {
        assert(before.take(i) =~= events.take(i));
        law_nothing_is_handled_after_stop(before, i);
    }
}

/// Whether a handler ended so by a panic.
pub open spec fn is_panic<G: GenServer>(event: Event<G>) -> bool {
    match event {
        Event::CallHandled { outcome, .. } => outcome is Panicked,
        Event::CastHandled { outcome, .. } => outcome is Panicked,
        _ => false,
    }
}

/// The server as the last callback that ended left it.
pub open spec fn current<G: GenServer>(events: Seq<Event<G>>) -> Option<G>
    decreases events.len(),
{
    if events.len() == 0 {
        None
    } else {
        match events.last() {
            Event::Initialized { result: Ok(InitResult::Success(server)) } => Some(server),
            Event::Initialized { result: Ok(InitResult::NoSuccess(server)) } => Some(server),
            Event::CallHandled { server, .. } => Some(server),
            Event::CastHandled { server, .. } => Some(server),
            _ => current(events.drop_last()),
        }
    }
}

/// Every handler, and teardown, is given the server as the callback before it
/// left it.
pub proof fn law_callbacks_see_the_latest_state<G: GenServer>(events: Seq<Event<G>>)
    requires
        possible(events),
    ensures
        state_after(events) matches Lifecycle::Receiving { server } ==> current(events) == Some(
            server,
        ),
        events.len() > 0 ==> match state_after(events.drop_last()).spec_next(
            events.last(),
        ).command {
            Command::HandleCall { server, .. } => current(events) == Some(server),
            Command::HandleCast { server, .. } => current(events) == Some(server),
            Command::Teardown { server } => current(events) == Some(server),
            _ => true,
        },
    decreases events.len(),
{
    if events.len() > 0 {
        law_callbacks_see_the_latest_state(events.drop_last());
    }
}

/// Cancelling its token stops a server as soon as it receives, whatever else has
/// come: it is torn down in the state in which it is, and then it ends.
pub proof fn law_cancellation_stops<G: GenServer>(
    events: Seq<Event<G>>,
    server: G,
    inbox: Incoming<G>,
    result: Result<(), G::Error>,
)
    requires
        possible(events),
        state_after(events) == (Lifecycle::Receiving { server }),
        inbox.cancelled,
    ensures
        Lifecycle::spec_received(inbox) == Some(Event::<G>::Cancelled),
        Lifecycle::spec_left(inbox) == inbox,
        possible(events.push(Event::Cancelled)),
        step_at(events.push(Event::Cancelled), events.len() as int).command == (
        Command::<G>::Teardown { server }),
        possible(events.push(Event::Cancelled).push(Event::TornDown { result })),
        state_after(
            events.push(Event::Cancelled).push(Event::TornDown { result }),
        ) is Finished,
{
    let cancelled = events.push(Event::Cancelled);
    assert(cancelled.drop_last() =~= events);
    assert(cancelled.take(events.len() as int) =~= events);
    let ended = cancelled.push(Event::TornDown { result });
    assert(ended.drop_last() =~= cancelled);
    assert(possible(cancelled));
    assert(state_after(cancelled) is TearingDown);
}

/// A handler that panics stops the server.
pub proof fn law_a_panic_stops<G: GenServer>(events: Seq<Event<G>>)
    requires
        possible(events),
        events.len() > 0,
        is_panic(events.last()),
    ensures
        state_after(events) is TearingDown,
{
}

/// What a caller gets is what the handler answered, and the server goes on only
/// after a plain reply: a call that the server does not handle, or whose handler
/// panics, is answered with the error that says so, and the server stops.
pub proof fn law_callers_get_what_the_handler_answered<G: GenServer>(
    events: Seq<Event<G>>,
    server: G,
    outcome: Outcome<CallResponse<G>>,
)
    requires
        possible(events),
        state_after(events) is HandlingCall,
    ensures
        ({
            let step = state_after(events).spec_next(Event::CallHandled { server, outcome });
            &&& step.reply is Some
            &&& match outcome {
                Outcome::Returned(CallResponse::Reply(reply)) => step.reply->0.response == Ok::<
                    G::OutMsg,
                    GenServerError,
                >(reply) && step.lifecycle == (Lifecycle::Receiving { server }),
                Outcome::Returned(CallResponse::Stop(reply)) => step.reply->0.response == Ok::<
                    G::OutMsg,
                    GenServerError,
                >(reply) && stopped(step.lifecycle),
                Outcome::Returned(CallResponse::Unused) => step.reply->0.response == Err::<
                    G::OutMsg,
                    GenServerError,
                >(GenServerError::CallMsgUnused) && stopped(step.lifecycle),
                Outcome::Panicked => step.reply->0.response == Err::<G::OutMsg, GenServerError>(
                    GenServerError::Callback,
                ) && stopped(step.lifecycle),
            }
        }),
{
}

/// A caller's call reaches the call handler as it was sent, and the answer goes
/// to where the caller waits for it.
pub proof fn law_the_answer_comes_back_to_the_caller<G: GenServer>(
    events: Seq<Event<G>>,
    server: G,
    call: PendingCall<G>,
    request: G::CallMsg,
    after: G,
    outcome: Outcome<CallResponse<G>>,
)
    requires
        possible(events),
        state_after(events) == (Lifecycle::Receiving { server }),
        call.posted.message() == (GenServerInMsg::<G>::Call {
            sender: call.reply.of(),
            message: request,
        }),
    ensures
        ({
            let received = Event::Message { message: Some(call.posted.message()) };
            let handled = Event::CallHandled { server: after, outcome };
            let first = step_at(events.push(received), events.len() as int);
            let second = step_at(events.push(received).push(handled), events.len() as int + 1);
            &&& possible(events.push(received).push(handled))
            &&& first.command == (Command::<G>::HandleCall { server, message: request })
            &&& second.reply == Some(
                Reply::<G> { sender: call.reply.of(), response: gen_server::call_response(outcome) },
            )
        }),
{
    let received = events.push(Event::Message { message: Some(call.posted.message()) });
    let handled = received.push(Event::CallHandled { server: after, outcome });
    assert(received.drop_last() =~= events);
    assert(received.take(events.len() as int) =~= events);
    assert(handled.drop_last() =~= received);
    assert(handled.take(events.len() as int + 1) =~= received);
    assert(possible(received));
    assert(state_after(received) == state_after(events).spec_next(received.last()).lifecycle);
}

/// However a server ends, its run ends without an error: whoever called it has
/// been told what went wrong, and nobody is linked with it.
pub proof fn law_run_ends_well<G: GenServer>(events: Seq<Event<G>>)
    requires
        possible(events),
        events.len() > 0,
    ensures
        ({
            let command = state_after(events.drop_last()).spec_next(events.last()).command;
            &&& command is Finish <==> state_after(events) is Finished
            &&& command matches Command::Finish { result } ==> result == Ok::<(), GenServerError>(())
        }),
{
}

/// A server that receives takes exactly one message, the oldest, and all others
/// stay.
pub proof fn law_one_message_is_received_at_a_time<G: GenServer>(inbox: Incoming<G>)
    requires
        !inbox.cancelled,
        inbox.mailbox.items.len() > 0,
    ensures
        Lifecycle::spec_received(inbox) == Some(
            Event::<G>::Message { message: Some(inbox.mailbox.items.first()) },
        ),
        Lifecycle::spec_left(inbox).mailbox.items == inbox.mailbox.items.drop_first(),
{
}

/// What is left in an inbox after a server received `n` times, with nothing new
/// coming.
pub open spec fn left_after<G: GenServer>(n: nat, inbox: Incoming<G>) -> Incoming<G>
    decreases n,
{
    if n == 0 {
        inbox
    } else {
        Lifecycle::spec_left(left_after((n - 1) as nat, inbox))
    }
}

/// However often a server received, the messages that it did not take are still
/// there, in their order: what is left is an end of what it was.
pub proof fn law_what_is_not_received_stays<G: GenServer>(n: nat, inbox: Incoming<G>)
    ensures
        ({
            let left = left_after(n, inbox);
            &&& left.mailbox.items.is_suffix_of(inbox.mailbox.items)
            &&& inbox.mailbox.items.len() - left.mailbox.items.len() <= n
        }),
    decreases n,
{
    if n > 0 {
        law_what_is_not_received_stays((n - 1) as nat, inbox);
        let left = left_after(n, inbox);
        assert(left.mailbox.items =~= inbox.mailbox.items.subrange(
            inbox.mailbox.items.len() - left.mailbox.items.len(),
            inbox.mailbox.items.len() as int,
        ));
    }
}

/// A reply goes to the one who asked and to nobody else, also when it comes too
/// late for them. A sender of a reply cannot be copied, so no two calls come
/// with the same one.
pub proof fn law_a_late_reply_is_nobody_elses<G: GenServer>(events: Seq<Event<G>>, i: int, j: int)
    requires
        possible(events),
        callers(events).no_duplicates(),
        0 <= i < answered(events).len(),
        0 <= j < callers(events).len(),
        i != j,
    ensures
        answered(events)[i] == callers(events)[i],
        answered(events)[i] != callers(events)[j],
{
    law_each_call_is_answered_once(events);
    assert(callers(events)[i] != callers(events)[j]);
    assert(answered(events)[i] == callers(events)[i]);
}

/// A server awaits the end of what it is doing and nothing else; while it
/// receives it awaits whatever can come.
pub proof fn law_a_server_awaits_what_it_does<G: GenServer>(
    lifecycle: Lifecycle<G>,
    event: Event<G>,
)
    ensures
        lifecycle.awaits(event) <==> match event {
            Event::Initialized { .. } => lifecycle is Initializing,
            Event::Cancelled => lifecycle is Receiving,
            Event::Message { .. } => lifecycle is Receiving,
            Event::CallHandled { .. } => lifecycle is HandlingCall,
            Event::CastHandled { .. } => lifecycle is HandlingCast,
            Event::TornDown { .. } => lifecycle is TearingDown,
        },
{
}

/// Whether the server goes back to receiving in this state, without stopping.
pub open spec fn goes_on_as<G: GenServer>(step: Step<G>, server: G) -> bool {
    &&& step.lifecycle == (Lifecycle::Receiving { server })
    &&& step.command is Receive
    &&& !step.cancel
}

/// Whether the server stops in this state: its token is cancelled and it is torn
/// down.
pub open spec fn stops_as<G: GenServer>(step: Step<G>, server: G) -> bool {
    &&& step.lifecycle is TearingDown
    &&& step.command == (Command::Teardown { server })
    &&& step.cancel
}

/// Going on is to receive again with the token untouched; stopping is to cancel
/// the token and tear down.
pub proof fn law_going_on_and_stopping<G: GenServer>(step: Step<G>, server: G)
    ensures
        goes_on_as(step, server) ==> !step.cancel && step.command is Receive && step.lifecycle == (
        Lifecycle::Receiving { server }),
        stops_as(step, server) ==> step.cancel && step.command == (Command::Teardown { server })
            && step.lifecycle is TearingDown,
{
}

/// A server that was initialized receives, as the callback left it; one whose
/// callback dealt with a failure is torn down, as the callback left it; and one
/// whose initialization failed unhandled has ended, with its token cancelled.
pub proof fn law_initialization_decides<G: GenServer>(server: G, error: G::Error)
    ensures
        ({
            let start = Lifecycle::<G>::Initializing;
            let ready = start.spec_next(
                Event::Initialized { result: Ok(InitResult::Success(server)) },
            );
            let failed = start.spec_next(
                Event::Initialized { result: Ok(InitResult::NoSuccess(server)) },
            );
            let ended = start.spec_next(Event::Initialized { result: Err(error) });
            &&& goes_on_as(ready, server) && ready.reply is None
            &&& stops_as(failed, server) && failed.reply is None
            &&& ended.lifecycle is Finished && ended.cancel && ended.reply is None
            &&& ended.command == (Command::<G>::Finish { result: Ok(()) })
        }),
{
}

/// Every cast that is received reaches the cast handler, as it is and with the
/// server as it is.
pub proof fn law_every_cast_is_handled<G: GenServer>(server: G, message: G::CastMsg)
    ensures
        ({
            let step = (Lifecycle::Receiving { server }).spec_next(
                Event::Message { message: Some(GenServerInMsg::Cast { message }) },
            );
            &&& step.command == (Command::<G>::HandleCast { server, message })
            &&& step.lifecycle is HandlingCast
            &&& step.reply is None
            &&& !step.cancel
        }),
{
}

/// Every call that is received reaches the call handler, as it is and with the
/// server as it is, and where its reply goes is kept until the handler ends.
pub proof fn law_every_call_is_handled<G: GenServer>(
    server: G,
    sender: oneshot::Sender<Result<G::OutMsg, GenServerError>>,
    message: G::CallMsg,
)
    ensures
        ({
            let step = (Lifecycle::Receiving { server }).spec_next(
                Event::Message { message: Some(GenServerInMsg::Call { sender, message }) },
            );
            &&& step.command == (Command::<G>::HandleCall { server, message })
            &&& step.lifecycle == (Lifecycle::<G>::HandlingCall { sender })
            &&& step.reply is None
            &&& !step.cancel
        }),
{
}

/// A call's reply goes where the call said, carries what the handler answered,
/// and is followed by going on after a plain reply and by stopping after all
/// else.
pub proof fn law_every_call_is_answered<G: GenServer>(
    sender: oneshot::Sender<Result<G::OutMsg, GenServerError>>,
    server: G,
    reply: G::OutMsg,
)
    ensures
        ({
            let lifecycle = Lifecycle::<G>::HandlingCall { sender };
            let replied = lifecycle.spec_next(
                Event::CallHandled {
                    server,
                    outcome: Outcome::Returned(CallResponse::Reply(reply)),
                },
            );
            let last = lifecycle.spec_next(
                Event::CallHandled {
                    server,
                    outcome: Outcome::Returned(CallResponse::Stop(reply)),
                },
            );
            let unused = lifecycle.spec_next(
                Event::CallHandled { server, outcome: Outcome::Returned(CallResponse::Unused) },
            );
            let panicked = lifecycle.spec_next(
                Event::CallHandled { server, outcome: Outcome::Panicked },
            );
            &&& goes_on_as(replied, server)
            &&& replied.reply == Some(Reply::<G> { sender, response: Ok(reply) })
            &&& stops_as(last, server)
            &&& last.reply == Some(Reply::<G> { sender, response: Ok(reply) })
            &&& stops_as(unused, server)
            &&& unused.reply == Some(
                Reply::<G> { sender, response: Err(GenServerError::CallMsgUnused) },
            )
            &&& stops_as(panicked, server)
            &&& panicked.reply == Some(
                Reply::<G> { sender, response: Err(GenServerError::Callback) },
            )
        }),
{
}

/// After a cast a server goes on if its handler says so; it stops if the handler
/// says so, does not handle such casts, or panics.
pub proof fn law_a_cast_is_followed_by_what_its_handler_says<G: GenServer>(server: G)
    ensures
        ({
            let after = |outcome: Outcome<CastResponse>|
                Lifecycle::<G>::HandlingCast.spec_next(Event::CastHandled { server, outcome });
            &&& goes_on_as(after(Outcome::Returned(CastResponse::NoReply)), server)
            &&& stops_as(after(Outcome::Returned(CastResponse::Stop)), server)
            &&& stops_as(after(Outcome::Returned(CastResponse::Unused)), server)
            &&& stops_as(after(Outcome::Panicked), server)
            &&& forall|outcome: Outcome<CastResponse>| (#[trigger] after(outcome)).reply is None
        }),
{
}

/// A server that receives stops when its token is cancelled and when no sender is
/// left; one that was torn down has ended, however teardown ended.
pub proof fn law_what_ends_a_server<G: GenServer>(server: G, torn_down: Result<(), G::Error>)
    ensures
        ({
            let receiving = Lifecycle::Receiving { server };
            let cancelled = receiving.spec_next(Event::Cancelled);
            let deserted = receiving.spec_next(Event::Message { message: None });
            let ended = Lifecycle::<G>::TearingDown.spec_next(
                Event::TornDown { result: torn_down },
            );
            &&& stops_as(cancelled, server) && cancelled.reply is None
            &&& stops_as(deserted, server) && deserted.reply is None
            &&& ended.lifecycle is Finished && !ended.cancel && ended.reply is None
            &&& ended.command == (Command::<G>::Finish { result: Ok(()) })
        }),
{
}

/// What a server receives next, of all that can have come: cancellation first,
/// then the oldest message, or their end once it has come and none waits. It
/// waits if and only if nothing of this has come.
pub proof fn law_what_a_server_receives_next<G: GenServer>(inbox: Incoming<G>)
    ensures
        ({
            let received = Lifecycle::spec_received(inbox);
            let left = Lifecycle::spec_left(inbox);
            &&& received == Some(Event::<G>::Cancelled) <==> inbox.cancelled
            &&& received is None <==> !inbox.cancelled && inbox.mailbox.items.len() == 0
                && !inbox.mailbox.closed
            &&& received matches Some(event) ==> event is Cancelled || event is Message
            &&& received matches Some(Event::Message { message }) ==> !inbox.cancelled
                && match message {
                Some(m) => inbox.mailbox.items == seq![m] + left.mailbox.items,
                None => inbox.mailbox.items.len() == 0 && inbox.mailbox.closed
                    && left.mailbox.items.len() == 0,
            }
            &&& (received is None || received == Some(Event::<G>::Cancelled)) ==> left == inbox
            &&& left.cancelled == inbox.cancelled
            &&& left.mailbox.closed == inbox.mailbox.closed
        }),
{
    inbox::law_taking_takes_the_oldest(inbox.mailbox);
}

/// A server whose mailbox has not been closed never finds that no sender is left.
pub proof fn law_no_end_comes_unclosed<G: GenServer>(inbox: Incoming<G>)
    ensures
        !inbox.mailbox.closed ==> Lifecycle::spec_received(inbox) != Some(
            Event::<G>::Message { message: None },
        ),
{
}

/// An inbox shows what it holds.
pub proof fn law_an_inbox_shows_what_it_holds<G: GenServer>(inbox: Inbox<G>)
    ensures
        inbox@.cancelled == inbox.cancelled,
        inbox@.mailbox == inbox.mailbox@,
{
}

} // verus!
