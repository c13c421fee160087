//! What holds of every life of an actor, whatever its callbacks do and
//! whatever it receives.
use crate::error::ActorError;
use crate::link::SystemMessage;
use crate::pid::{ExitReason, Pid};
use crate::process_table::{Notice, Processes};
use crate::tasks::actor::{
    self, Actor, ActorInMsg, InfoResult, InitResult, MessageResult, RequestResult,
};
use crate::tasks::actor_loop::{Command, Event, Inbox, Incoming, Lifecycle, Reply, Stage, Step};
use crate::tasks::actor_ref::{self, PendingCall};
use crate::tasks::callback::Outcome;
use crate::tasks::inbox;
use tokio::sync::oneshot;
use vstd::prelude::*;

verus! {

/// Where an actor stands that was started and then saw these events.
pub open spec fn state_after<G: Actor>(events: Seq<Event<G>>) -> Lifecycle<G>
    decreases events.len(),
{
    if events.len() == 0 {
        Lifecycle::starting()
    } else {
        state_after(events.drop_last()).spec_next(events.last()).lifecycle
    }
}

/// Whether these events can follow one another from the start on.
pub open spec fn possible<G: Actor>(events: Seq<Event<G>>) -> bool
    decreases events.len(),
{
    events.len() == 0 || (possible(events.drop_last()) && state_after(events.drop_last()).awaits(
        events.last(),
    ))
}

/// The step that the event at `i` causes.
pub open spec fn step_at<G: Actor>(events: Seq<Event<G>>, i: int) -> Step<G> {
    state_after(events.take(i)).spec_next(events[i])
}

/// Where the replies to the requests among these events are expected, in the
/// order of the requests.
pub open spec fn callers<G: Actor>(events: Seq<Event<G>>) -> Seq<
    oneshot::Sender<Result<G::Reply, ActorError>>,
>
    decreases events.len(),
{
    if events.len() == 0 {
        Seq::empty()
    } else {
        match events.last() {
            Event::Message { message: Some(ActorInMsg::Call { sender, .. }) } => callers(
                events.drop_last(),
            ).push(sender),
            _ => callers(events.drop_last()),
        }
    }
}

/// Where replies have gone, in the order in which they were sent.
pub open spec fn answered<G: Actor>(events: Seq<Event<G>>) -> Seq<
    oneshot::Sender<Result<G::Reply, ActorError>>,
>
    decreases events.len(),
{
    if events.len() == 0 {
        Seq::empty()
    } else {
        match state_after(events.drop_last()).spec_next(events.last()).reply {
            Some(reply) => answered(events.drop_last()).push(reply.sender),
            None => answered(events.drop_last()),
        }
    }
}

/// How often teardown was called for.
pub open spec fn teardowns<G: Actor>(events: Seq<Event<G>>) -> nat
    decreases events.len(),
{
    if events.len() == 0 {
        0
    } else {
        let step = state_after(events.drop_last()).spec_next(events.last());
        teardowns(events.drop_last()) + if step.command is Teardown {
            1nat
        } else {
            0
        }
    }
}

/// How often the token was cancelled by the actor's own life.
pub open spec fn cancellations<G: Actor>(events: Seq<Event<G>>) -> nat
    decreases events.len(),
{
    if events.len() == 0 {
        0
    } else {
        let step = state_after(events.drop_last()).spec_next(events.last());
        cancellations(events.drop_last()) + if step.cancel {
            1nat
        } else {
            0
        }
    }
}

/// Whether the initialization callback ended without an error.
pub open spec fn initialized<G: Actor>(events: Seq<Event<G>>) -> bool {
    events.len() > 0 && (events[0] matches Event::Initialized { result } && result is Ok)
}

/// Whether the actor has left its loop.
pub open spec fn stopped<G: Actor>(lifecycle: Lifecycle<G>) -> bool {
    lifecycle.stage is TearingDown || lifecycle.stage is Finished
}

/// Every request that an actor receives is answered exactly once, in the order
/// in which the requests came, through the sender that came with it, and this
/// also where the handler panics or does not handle such requests: the only
/// request without an answer is the one whose handler still runs.
pub proof fn law_each_request_is_answered_once<G: Actor>(events: Seq<Event<G>>)
    requires
        possible(events),
    ensures
        match state_after(events).stage {
            Stage::HandlingRequest { sender } => callers(events) == answered(events).push(sender),
            _ => callers(events) == answered(events),
        },
    decreases events.len(),
{
    if events.len() > 0 {
        law_each_request_is_answered_once(events.drop_last());
    }
}

/// Initialization comes first and once, and an actor whose initialization
/// ended with an error has ended.
pub proof fn law_initialization_comes_first<G: Actor>(events: Seq<Event<G>>)
    requires
        possible(events),
    ensures
        state_after(events).stage is Initializing <==> events.len() == 0,
        events.len() > 0 ==> events[0] is Initialized,
        forall|i: int| 0 < i < events.len() ==> !(#[trigger] events[i] is Initialized),
        events.len() > 0 && !initialized(events) ==> events.len() == 1 && state_after(
            events,
        ).stage is Finished,
    decreases events.len(),
{
    if events.len() > 0 {
        let before = events.drop_last();
        law_initialization_comes_first(before);
        if before.len() > 0 {
            assert(before[0] == events[0]);
        }
        assert forall|i: int| 0 < i < events.len() implies !(#[trigger] events[i] is Initialized) by {
            if i < before.len() {
                assert(before[i] == events[i]);
            }
        }
    }
}

/// An actor is torn down once, when it stops, if its initialization ended
/// without an error, and never if it ended with one.
pub proof fn law_torn_down_once<G: Actor>(events: Seq<Event<G>>)
    requires
        possible(events),
    ensures
        teardowns(events) == (if stopped(state_after(events)) && initialized(events) {
            1nat
        } else {
            0
        }),
    decreases events.len(),
{
    law_initialization_comes_first(events);
    if events.len() > 0 {
        let before = events.drop_last();
        law_torn_down_once(before);
        law_initialization_comes_first(before);
        if before.len() > 0 {
            assert(before[0] == events[0]);
        }
    }
}

/// An actor that has stopped has cancelled its token, once; one that has not
/// stopped has not. So the token is cancelled before teardown begins, and at
/// the end whatever happened.
pub proof fn law_token_is_cancelled_on_stop<G: Actor>(events: Seq<Event<G>>)
    requires
        possible(events),
    ensures
        cancellations(events) == (if stopped(state_after(events)) {
            1nat
        } else {
            0
        }),
    decreases events.len(),
{
    if events.len() > 0 {
        law_token_is_cancelled_on_stop(events.drop_last());
    }
}

/// An actor that has stopped receives and handles nothing more: all that can
/// still happen is the end of its teardown.
pub proof fn law_nothing_is_handled_after_stop<G: Actor>(events: Seq<Event<G>>, i: int)
    requires
        possible(events),
        0 <= i < events.len(),
        stopped(state_after(events.take(i))),
    ensures
        i == events.len() - 1,
        events[i] is TornDown,
        step_at(events, i).reply is None,
        !step_at(events, i).cancel,
        step_at(events, i).command is Finish,
        state_after(events).stage is Finished,
    decreases events.len(),
{
    let before = events.drop_last();
    assert(before.take(before.len() as int) =~= before);
    assert(events.take(before.len() as int) =~= before);
    if i < before.len() {
        assert(before.take(i) =~= events.take(i));
        law_nothing_is_handled_after_stop(before, i);
    }
}

/// Whether a handler ended so by a panic.
pub open spec fn is_panic<G: Actor>(event: Event<G>) -> bool {
    match event {
        Event::InfoHandled { outcome, .. } => outcome is Panicked,
        Event::RequestHandled { outcome, .. } => outcome is Panicked,
        Event::MessageHandled { outcome, .. } => outcome is Panicked,
        _ => false,
    }
}

/// Whether a handler panicked.
pub open spec fn panicked<G: Actor>(events: Seq<Event<G>>) -> bool {
    exists|i: int| 0 <= i < events.len() && is_panic(#[trigger] events[i])
}

/// How the run of an actor that saw these events ends: a handler that panicked
/// and an initialization that failed unhandled are crashes, all else is not.
pub open spec fn run_result<G: Actor>(events: Seq<Event<G>>) -> Result<(), ActorError> {
    if panicked(events) {
        Err(ActorError::Callback)
    } else if events.len() > 0 && !initialized(events) {
        Err(ActorError::Initialization)
    } else {
        Ok(())
    }
}

/// The run of an actor ends with an error if it crashed, and only then: whoever
/// is to learn of its end learns of a crash as one. While the actor has not
/// stopped, it has not crashed.
pub proof fn law_a_crash_is_reported<G: Actor>(events: Seq<Event<G>>)
    requires
        possible(events),
    ensures
        !stopped(state_after(events)) ==> run_result(events) == Ok::<(), ActorError>(()),
        state_after(events).stage matches Stage::TearingDown { result } ==> result == run_result(
            events,
        ),
        events.len() > 0 ==> (state_after(events.drop_last()).spec_next(
            events.last(),
        ).command matches Command::Finish { result } ==> result == run_result(events)),
        events.len() > 0 ==> (state_after(events).stage is Finished <==> state_after(
            events.drop_last(),
        ).spec_next(events.last()).command is Finish),
    decreases events.len(),
{
    law_initialization_comes_first(events);
    if events.len() > 0 {
        let before = events.drop_last();
        law_a_crash_is_reported(before);
        law_initialization_comes_first(before);
        if before.len() > 0 {
            assert(before[0] == events[0]);
        }
        assert(panicked(events) <==> panicked(before) || is_panic(events.last())) by {
            if panicked(before) {
                let i = choose|i: int| 0 <= i < before.len() && is_panic(#[trigger] before[i]);
                assert(is_panic(events[i]));
            }
            if panicked(events) {
                let i = choose|i: int| 0 <= i < events.len() && is_panic(#[trigger] events[i]);
                if i < before.len() {
                    assert(is_panic(before[i]));
                }
            }
            if is_panic(events.last()) {
                assert(is_panic(events[events.len() - 1]));
            }
        }
    }
}

/// When an actor crashed, or ended because another did, those that are linked
/// with it and do not trap exits end too, and those that do are told; otherwise
/// nobody ends because of its end.
pub proof fn law_only_a_crash_takes_others_along<G: Actor, S>(
    events: Seq<Event<G>>,
    table: Processes<S>,
    pid: Pid,
    doomed: bool,
    other: Pid,
    reason: ExitReason,
)
    requires
        possible(events),
        state_after(events).stage is Finished,
        actor_ref::ends_for(run_result(events), doomed, reason),
        table.wf(),
        table.linked(pid, other),
    ensures
        table.due(pid, reason, Notice::Kill { to: other, reason }) <==> !table.traps(other)
            && (run_result(events) is Err || doomed),
        table.due(pid, reason, Notice::Exit { to: other, pid, reason }) <==> table.traps(other),
{
}

/// The actor as the last callback that ended left it.
pub open spec fn current<G: Actor>(events: Seq<Event<G>>) -> Option<G>
    decreases events.len(),
{
    if events.len() == 0 {
        None
    } else {
        match events.last() {
            Event::Initialized { result: Ok(InitResult::Success(actor)) } => Some(actor),
            Event::Initialized { result: Ok(InitResult::NoSuccess(actor)) } => Some(actor),
            Event::InfoHandled { actor, .. } => Some(actor),
            Event::RequestHandled { actor, .. } => Some(actor),
            Event::MessageHandled { actor, .. } => Some(actor),
            _ => current(events.drop_last()),
        }
    }
}

/// Every handler, and teardown, is given the actor as the callback before it
/// left it.
pub proof fn law_callbacks_see_the_latest_state<G: Actor>(events: Seq<Event<G>>)
    requires
        possible(events),
    ensures
        state_after(events).stage matches Stage::Receiving { actor } ==> current(events) == Some(
            actor,
        ),
        events.len() > 0 ==> match state_after(events.drop_last()).spec_next(
            events.last(),
        ).command {
            Command::HandleInfo { actor, .. } => current(events) == Some(actor),
            Command::HandleRequest { actor, .. } => current(events) == Some(actor),
            Command::HandleMessage { actor, .. } => current(events) == Some(actor),
            Command::Teardown { actor } => current(events) == Some(actor),
            _ => true,
        },
    decreases events.len(),
{
    if events.len() > 0 {
        law_callbacks_see_the_latest_state(events.drop_last());
    }
}

/// Cancelling its token stops an actor as soon as it receives, whatever else has
/// come: it is torn down in the state in which it is, and then it ends.
pub proof fn law_cancellation_stops<G: Actor>(
    events: Seq<Event<G>>,
    actor: G,
    inbox: Incoming<G>,
    result: Result<(), G::Error>,
)
    requires
        possible(events),
        state_after(events).stage == (Stage::Receiving { actor }),
        inbox.cancelled,
    ensures
        state_after(events).spec_received(inbox) == Some(Event::<G>::Cancelled),
        state_after(events).spec_left(inbox) == inbox,
        possible(events.push(Event::Cancelled)),
        step_at(events.push(Event::Cancelled), events.len() as int).command == (
        Command::<G>::Teardown { actor }),
        possible(events.push(Event::Cancelled).push(Event::TornDown { result })),
        state_after(
            events.push(Event::Cancelled).push(Event::TornDown { result }),
        ).stage is Finished,
{
    let cancelled = events.push(Event::Cancelled);
    assert(cancelled.drop_last() =~= events);
    assert(cancelled.take(events.len() as int) =~= events);
    let ended = cancelled.push(Event::TornDown { result });
    assert(ended.drop_last() =~= cancelled);
    assert(possible(cancelled));
    assert(state_after(cancelled).stage is TearingDown);
}

/// A handler that panics stops the actor.
pub proof fn law_a_panic_stops<G: Actor>(events: Seq<Event<G>>)
    requires
        possible(events),
        events.len() > 0,
        is_panic(events.last()),
    ensures
        state_after(events).stage is TearingDown,
{
}

/// What a caller gets is what the handler answered, and the actor goes on only
/// after a plain reply: a request that the actor does not handle, or whose
/// handler panics, is answered with the error that says so, and the actor stops.
pub proof fn law_callers_get_what_the_handler_answered<G: Actor>(
    events: Seq<Event<G>>,
    actor: G,
    outcome: Outcome<RequestResult<G>>,
)
    requires
        possible(events),
        state_after(events).stage is HandlingRequest,
    ensures
        ({
            let step = state_after(events).spec_next(Event::RequestHandled { actor, outcome });
            &&& step.reply is Some
            &&& match outcome {
                Outcome::Returned(RequestResult::Reply(reply)) => step.reply->0.response == Ok::<
                    G::Reply,
                    ActorError,
                >(reply) && step.lifecycle.stage == (Stage::Receiving { actor }),
                Outcome::Returned(RequestResult::Stop(reply)) => step.reply->0.response == Ok::<
                    G::Reply,
                    ActorError,
                >(reply) && stopped(step.lifecycle),
                Outcome::Returned(RequestResult::Unused) => step.reply->0.response == Err::<
                    G::Reply,
                    ActorError,
                >(ActorError::RequestUnused) && stopped(step.lifecycle),
                Outcome::Panicked => step.reply->0.response == Err::<G::Reply, ActorError>(
                    ActorError::Callback,
                ) && stopped(step.lifecycle),
            }
        }),
{
}

/// A caller's request reaches the request handler as it was sent, and the
/// answer goes to where the caller waits for it.
pub proof fn law_the_answer_comes_back_to_the_caller<G: Actor>(
    events: Seq<Event<G>>,
    actor: G,
    call: PendingCall<G>,
    request: G::Request,
    after: G,
    outcome: Outcome<RequestResult<G>>,
)
    requires
        possible(events),
        state_after(events).stage == (Stage::Receiving { actor }),
        call.posted.message() == (ActorInMsg::<G>::Call { sender: call.reply.of(), message: request }),
    ensures
        ({
            let received = Event::Message { message: Some(call.posted.message()) };
            let handled = Event::RequestHandled { actor: after, outcome };
            let first = step_at(events.push(received), events.len() as int);
            let second = step_at(events.push(received).push(handled), events.len() as int + 1);
            &&& possible(events.push(received).push(handled))
            &&& first.command == (Command::<G>::HandleRequest { actor, message: request })
            &&& second.reply == Some(
                Reply::<G> { sender: call.reply.of(), response: actor::request_response(outcome) },
            )
        }),
{
    let received = events.push(Event::Message { message: Some(call.posted.message()) });
    let handled = received.push(Event::RequestHandled { actor: after, outcome });
    assert(received.drop_last() =~= events);
    assert(received.take(events.len() as int) =~= events);
    assert(handled.drop_last() =~= received);
    assert(handled.take(events.len() as int + 1) =~= received);
    assert(possible(received));
    assert(state_after(received) == state_after(events).spec_next(received.last()).lifecycle);
}

/// An actor that receives takes exactly one message, the oldest of its queue:
/// a system message if there is one, and an ordinary one only if there is none.
/// All other messages stay where they are.
pub proof fn law_one_message_is_received_at_a_time<G: Actor>(
    lifecycle: Lifecycle<G>,
    inbox: Incoming<G>,
)
    requires
        lifecycle.system_open,
        !inbox.cancelled,
        !inbox.system.closed,
        inbox.system.items.len() > 0 || inbox.mailbox.items.len() > 0,
    ensures
        ({
            let left = lifecycle.spec_left(inbox);
            if inbox.system.items.len() > 0 {
                &&& lifecycle.spec_received(inbox) == Some(
                    Event::<G>::System { message: Some(inbox.system.items.first()) },
                )
                &&& left.system.items == inbox.system.items.drop_first()
                &&& left.mailbox == inbox.mailbox
            } else {
                &&& lifecycle.spec_received(inbox) == Some(
                    Event::<G>::Message { message: Some(inbox.mailbox.items.first()) },
                )
                &&& left.mailbox.items == inbox.mailbox.items.drop_first()
                &&& left.system == inbox.system
            }
        }),
{
}

/// When no more system messages can come, ordinary ones are still received, and
/// an actor does not wait while there is something that it can receive.
pub proof fn law_ordinary_messages_outlive_system_messages<G: Actor>(
    lifecycle: Lifecycle<G>,
    inbox: Incoming<G>,
)
    requires
        !lifecycle.system_open,
        !inbox.cancelled,
    ensures
        lifecycle.spec_received(inbox) == (if inbox.mailbox.ready() {
            Some(Event::<G>::Message { message: inbox.mailbox.oldest() })
        } else {
            None
        }),
        lifecycle.spec_left(inbox).system == inbox.system,
{
}

/// What is left in an inbox after an actor received as often as this, standing
/// each time where it stood then, with nothing new coming.
pub open spec fn left_after<G: Actor>(lifecycles: Seq<Lifecycle<G>>, inbox: Incoming<G>) -> Incoming<
    G,
>
    decreases lifecycles.len(),
{
    if lifecycles.len() == 0 {
        inbox
    } else {
        lifecycles.last().spec_left(left_after(lifecycles.drop_last(), inbox))
    }
}

/// However often an actor received, the messages that it did not take are still
/// there, in their order: what is left of either queue is an end of what it was.
pub proof fn law_what_is_not_received_stays<G: Actor>(
    lifecycles: Seq<Lifecycle<G>>,
    inbox: Incoming<G>,
)
    ensures
        ({
            let left = left_after(lifecycles, inbox);
            &&& left.mailbox.items.is_suffix_of(inbox.mailbox.items)
            &&& left.system.items.is_suffix_of(inbox.system.items)
            &&& (inbox.mailbox.items.len() - left.mailbox.items.len()) + (
            inbox.system.items.len() - left.system.items.len()) <= lifecycles.len()
        }),
    decreases lifecycles.len(),
{
    if lifecycles.len() > 0 {
        law_what_is_not_received_stays(lifecycles.drop_last(), inbox);
        let left = left_after(lifecycles, inbox);
        assert(left.mailbox.items =~= inbox.mailbox.items.subrange(
            inbox.mailbox.items.len() - left.mailbox.items.len(),
            inbox.mailbox.items.len() as int,
        ));
        assert(left.system.items =~= inbox.system.items.subrange(
            inbox.system.items.len() - left.system.items.len(),
            inbox.system.items.len() as int,
        ));
    }
}

/// A reply goes to the one who asked and to nobody else, also when it comes too
/// late for them. A sender of a reply cannot be copied, so no two requests come
/// with the same one.
pub proof fn law_a_late_reply_is_nobody_elses<G: Actor>(events: Seq<Event<G>>, i: int, j: int)
    requires
        possible(events),
        callers(events).no_duplicates(),
        0 <= i < answered(events).len(),
        0 <= j < callers(events).len(),
        i != j,
    ensures
        answered(events)[i] == callers(events)[i],
        answered(events)[i] != callers(events)[j],
{
    law_each_request_is_answered_once(events);
    assert(callers(events)[i] != callers(events)[j]);
    assert(answered(events)[i] == callers(events)[i]);
}

/// Once there are no more system messages the actor stays without them.
pub proof fn law_closed_system_stays_closed<G: Actor>(events: Seq<Event<G>>, i: int)
    requires
        possible(events),
        0 <= i <= events.len(),
        !state_after(events.take(i)).system_open,
    ensures
        !state_after(events).system_open,
    decreases events.len(),
{
    if i == events.len() {
        assert(events.take(i) =~= events);
    } else {
        assert(events.drop_last().take(i) =~= events.take(i));
        law_closed_system_stays_closed(events.drop_last(), i);
    }
}

/// Where an actor that has just been started stands: it is to be initialized,
/// and system messages can come.
pub proof fn law_an_actor_starts_uninitialized<G: Actor>()
    ensures
        Lifecycle::<G>::starting().stage is Initializing,
        Lifecycle::<G>::starting().system_open,
{
}

/// An actor awaits the end of what it is doing and nothing else; while it
/// receives it awaits whatever can come.
pub proof fn law_an_actor_awaits_what_it_does<G: Actor>(lifecycle: Lifecycle<G>, event: Event<G>)
    ensures
        lifecycle.awaits(event) <==> match event {
            Event::Initialized { .. } => lifecycle.stage is Initializing,
            Event::Cancelled => lifecycle.stage is Receiving,
            Event::System { .. } => lifecycle.stage is Receiving && lifecycle.system_open,
            Event::Message { .. } => lifecycle.stage is Receiving,
            Event::InfoHandled { .. } => lifecycle.stage is HandlingInfo,
            Event::RequestHandled { .. } => lifecycle.stage is HandlingRequest,
            Event::MessageHandled { .. } => lifecycle.stage is HandlingMessage,
            Event::TornDown { .. } => lifecycle.stage is TearingDown,
        },
{
}

/// Whether the actor goes back to receiving in this state, without stopping.
pub open spec fn goes_on_as<G: Actor>(step: Step<G>, actor: G) -> bool {
    &&& step.lifecycle.stage == (Stage::Receiving { actor })
    &&& step.command is Receive
    &&& !step.cancel
}

/// Whether the actor stops in this state: its token is cancelled, it is torn
/// down, and its run will end so.
pub open spec fn stops_as<G: Actor>(
    step: Step<G>,
    actor: G,
    result: Result<(), ActorError>,
) -> bool {
    &&& step.lifecycle.stage == (Stage::<G>::TearingDown { result })
    &&& step.command == (Command::Teardown { actor })
    &&& step.cancel
}

/// Going on is to receive again with the token untouched; stopping is to cancel
/// the token and tear down.
pub proof fn law_going_on_and_stopping<G: Actor>(
    step: Step<G>,
    actor: G,
    result: Result<(), ActorError>,
)
    ensures
        goes_on_as(step, actor) ==> !step.cancel && step.command is Receive
            && step.lifecycle.stage == (Stage::Receiving { actor }),
        stops_as(step, actor, result) ==> step.cancel && step.command == (Command::Teardown {
            actor,
        }) && step.lifecycle.stage == (Stage::<G>::TearingDown { result }),
{
}

/// An actor that was initialized receives, as the callback left it; one whose
/// callback dealt with a failure is torn down, as the callback left it; and one
/// whose initialization failed unhandled has ended by a crash, with its token
/// cancelled.
pub proof fn law_initialization_decides<G: Actor>(
    lifecycle: Lifecycle<G>,
    actor: G,
    error: G::Error,
)
    requires
        lifecycle.stage is Initializing,
    ensures
        ({
            let ready = lifecycle.spec_next(
                Event::Initialized { result: Ok(InitResult::Success(actor)) },
            );
            let failed = lifecycle.spec_next(
                Event::Initialized { result: Ok(InitResult::NoSuccess(actor)) },
            );
            let crashed = lifecycle.spec_next(Event::Initialized { result: Err(error) });
            &&& goes_on_as(ready, actor) && ready.reply is None
            &&& stops_as(failed, actor, Ok(())) && failed.reply is None
            &&& crashed.lifecycle.stage is Finished && crashed.cancel && crashed.reply is None
            &&& crashed.command == (Command::<G>::Finish {
                result: Err(ActorError::Initialization),
            })
        }),
{
}

/// Every system message that is received reaches the system message handler, as
/// it is and with the actor as it is.
pub proof fn law_every_system_message_is_handled<G: Actor>(
    lifecycle: Lifecycle<G>,
    actor: G,
    message: SystemMessage,
)
    requires
        lifecycle.stage == (Stage::Receiving { actor }),
    ensures
        ({
            let step = lifecycle.spec_next(Event::System { message: Some(message) });
            &&& step.command == (Command::<G>::HandleInfo { actor, message })
            &&& step.lifecycle.stage is HandlingInfo
            &&& step.reply is None
            &&& !step.cancel
        }),
{
}

/// Every message that is received reaches the message handler, as it is and with
/// the actor as it is.
pub proof fn law_every_message_is_handled<G: Actor>(
    lifecycle: Lifecycle<G>,
    actor: G,
    message: G::Message,
)
    requires
        lifecycle.stage == (Stage::Receiving { actor }),
    ensures
        ({
            let step = lifecycle.spec_next(
                Event::Message { message: Some(ActorInMsg::Cast { message }) },
            );
            &&& step.command == (Command::<G>::HandleMessage { actor, message })
            &&& step.lifecycle.stage is HandlingMessage
            &&& step.reply is None
            &&& !step.cancel
        }),
{
}

/// Every request that is received reaches the request handler, as it is and with
/// the actor as it is, and where its reply goes is kept until the handler ends.
pub proof fn law_every_request_is_handled<G: Actor>(
    lifecycle: Lifecycle<G>,
    actor: G,
    sender: oneshot::Sender<Result<G::Reply, ActorError>>,
    message: G::Request,
)
    requires
        lifecycle.stage == (Stage::Receiving { actor }),
    ensures
        ({
            let step = lifecycle.spec_next(
                Event::Message { message: Some(ActorInMsg::Call { sender, message }) },
            );
            &&& step.command == (Command::<G>::HandleRequest { actor, message })
            &&& step.lifecycle.stage == (Stage::<G>::HandlingRequest { sender })
            &&& step.reply is None
            &&& !step.cancel
        }),
{
}

/// A request's reply goes where the request said, carries what the handler
/// answered, and is followed by going on after a plain reply and by stopping
/// after all else.
pub proof fn law_every_request_is_answered<G: Actor>(
    lifecycle: Lifecycle<G>,
    sender: oneshot::Sender<Result<G::Reply, ActorError>>,
    actor: G,
    reply: G::Reply,
)
    requires
        lifecycle.stage == (Stage::<G>::HandlingRequest { sender }),
    ensures
        ({
            let replied = lifecycle.spec_next(
                Event::RequestHandled {
                    actor,
                    outcome: Outcome::Returned(RequestResult::Reply(reply)),
                },
            );
            let last = lifecycle.spec_next(
                Event::RequestHandled {
                    actor,
                    outcome: Outcome::Returned(RequestResult::Stop(reply)),
                },
            );
            let unused = lifecycle.spec_next(
                Event::RequestHandled { actor, outcome: Outcome::Returned(RequestResult::Unused) },
            );
            let panicked = lifecycle.spec_next(
                Event::RequestHandled { actor, outcome: Outcome::Panicked },
            );
            &&& goes_on_as(replied, actor)
            &&& replied.reply == Some(Reply::<G> { sender, response: Ok(reply) })
            &&& stops_as(last, actor, Ok(()))
            &&& last.reply == Some(Reply::<G> { sender, response: Ok(reply) })
            &&& stops_as(unused, actor, Ok(()))
            &&& unused.reply == Some(
                Reply::<G> { sender, response: Err(ActorError::RequestUnused) },
            )
            &&& stops_as(panicked, actor, Err(ActorError::Callback))
            &&& panicked.reply == Some(Reply::<G> { sender, response: Err(ActorError::Callback) })
        }),
{
}

/// After a message an actor goes on if its handler says so; it stops if the
/// handler says so, does not handle such messages, or panics.
pub proof fn law_a_message_is_followed_by_what_its_handler_says<G: Actor>(
    lifecycle: Lifecycle<G>,
    actor: G,
)
    requires
        lifecycle.stage is HandlingMessage,
    ensures
        ({
            let after = |outcome: Outcome<MessageResult>|
                lifecycle.spec_next(Event::MessageHandled { actor, outcome });
            &&& goes_on_as(after(Outcome::Returned(MessageResult::NoReply)), actor)
            &&& stops_as(after(Outcome::Returned(MessageResult::Stop)), actor, Ok(()))
            &&& stops_as(after(Outcome::Returned(MessageResult::Unused)), actor, Ok(()))
            &&& stops_as(after(Outcome::Panicked), actor, Err(ActorError::Callback))
            &&& forall|outcome: Outcome<MessageResult>| (#[trigger] after(outcome)).reply is None
        }),
{
}

/// After a system message an actor goes on if its handler says so; it stops if
/// the handler says so or panics.
pub proof fn law_a_system_message_is_followed_by_what_its_handler_says<G: Actor>(
    lifecycle: Lifecycle<G>,
    actor: G,
)
    requires
        lifecycle.stage is HandlingInfo,
    ensures
        ({
            let after = |outcome: Outcome<InfoResult>|
                lifecycle.spec_next(Event::InfoHandled { actor, outcome });
            &&& goes_on_as(after(Outcome::Returned(InfoResult::NoReply)), actor)
            &&& stops_as(after(Outcome::Returned(InfoResult::Stop)), actor, Ok(()))
            &&& stops_as(after(Outcome::Panicked), actor, Err(ActorError::Callback))
            &&& forall|outcome: Outcome<InfoResult>| (#[trigger] after(outcome)).reply is None
        }),
{
}

/// An actor that receives stops when its token is cancelled and when no sender is
/// left, and goes on, as it is, when only system messages have come to an end.
pub proof fn law_what_ends_receiving<G: Actor>(lifecycle: Lifecycle<G>, actor: G)
    requires
        lifecycle.stage == (Stage::Receiving { actor }),
    ensures
        ({
            let cancelled = lifecycle.spec_next(Event::Cancelled);
            let deserted = lifecycle.spec_next(Event::Message { message: None });
            let without_system = lifecycle.spec_next(Event::System { message: None });
            &&& stops_as(cancelled, actor, Ok(())) && cancelled.reply is None
            &&& stops_as(deserted, actor, Ok(())) && deserted.reply is None
            &&& goes_on_as(without_system, actor) && without_system.reply is None
            &&& !without_system.lifecycle.system_open
        }),
{
}

/// An actor that was torn down has ended, however teardown ended, and its run
/// ends as was settled when it stopped.
pub proof fn law_teardown_ends_the_run<G: Actor>(
    lifecycle: Lifecycle<G>,
    result: Result<(), ActorError>,
    torn_down: Result<(), G::Error>,
)
    requires
        lifecycle.stage == (Stage::<G>::TearingDown { result }),
    ensures
        ({
            let step = lifecycle.spec_next(Event::TornDown { result: torn_down });
            &&& step.lifecycle.stage is Finished
            &&& step.command == (Command::<G>::Finish { result })
            &&& step.reply is None
            &&& !step.cancel
        }),
{
}

/// Nothing but the end of the system messages itself keeps an actor from
/// receiving system messages.
pub proof fn law_system_messages_end_only_at_their_end<G: Actor>(
    lifecycle: Lifecycle<G>,
    event: Event<G>,
)
    requires
        lifecycle.awaits(event),
        event != (Event::<G>::System { message: None }),
    ensures
        lifecycle.spec_next(event).lifecycle.system_open == lifecycle.system_open,
{
}

/// What an actor receives next, of all that can have come: cancellation before
/// all else; then, as long as system messages can come, the oldest of these, or
/// their end once it has come and none waits; then the oldest of the others, or
/// their end. It waits if and only if nothing of this has come.
pub proof fn law_what_an_actor_receives_next<G: Actor>(
    lifecycle: Lifecycle<G>,
    inbox: Incoming<G>,
)
    ensures
        ({
            let received = lifecycle.spec_received(inbox);
            let left = lifecycle.spec_left(inbox);
            let system = lifecycle.system_open && (inbox.system.items.len() > 0
                || inbox.system.closed);
            &&& received == Some(Event::<G>::Cancelled) <==> inbox.cancelled
            &&& received is None <==> !inbox.cancelled && !system && inbox.mailbox.items.len() == 0
                && !inbox.mailbox.closed
            &&& received matches Some(Event::System { message }) ==> !inbox.cancelled && system
                && match message {
                Some(m) => inbox.system.items == seq![m] + left.system.items,
                None => inbox.system.items.len() == 0 && inbox.system.closed
                    && left.system.items.len() == 0,
            } && left.mailbox == inbox.mailbox
            &&& received matches Some(Event::Message { message }) ==> !inbox.cancelled && !system
                && match message {
                Some(m) => inbox.mailbox.items == seq![m] + left.mailbox.items,
                None => inbox.mailbox.items.len() == 0 && inbox.mailbox.closed
                    && left.mailbox.items.len() == 0,
            } && left.system == inbox.system
            &&& (received is None || received == Some(Event::<G>::Cancelled)) ==> left == inbox
            &&& left.cancelled == inbox.cancelled
            &&& left.system.closed == inbox.system.closed
            &&& left.mailbox.closed == inbox.mailbox.closed
        }),
{
    inbox::law_taking_takes_the_oldest(inbox.system);
    inbox::law_taking_takes_the_oldest(inbox.mailbox);
}

/// An actor whose mailbox has not been closed never finds that no sender is left,
/// and one whose system messages have not come to an end never finds that they
/// have.
pub proof fn law_no_end_comes_unclosed<G: Actor>(lifecycle: Lifecycle<G>, inbox: Incoming<G>)
    ensures
        !inbox.mailbox.closed ==> lifecycle.spec_received(inbox) != Some(
            Event::<G>::Message { message: None },
        ),
        !inbox.system.closed ==> lifecycle.spec_received(inbox) != Some(
            Event::<G>::System { message: None },
        ),
{
}

/// An inbox shows what it holds.
pub proof fn law_an_inbox_shows_what_it_holds<G: Actor>(inbox: Inbox<G>)
    ensures
        inbox@.cancelled == inbox.cancelled,
        inbox@.system == inbox.system@,
        inbox@.mailbox == inbox.mailbox@,
{
}

} // verus!
