//! The life of an actor: initialization, receiving and handling one message
//! after another, teardown.
//!
//! What takes time (a callback, waiting for a message) runs on the runtime.
//! [`Lifecycle`] decides what is to be done next and is told how it ended.
use crate::error::ActorError;
use crate::link::SystemMessage;
use crate::tasks::actor::{
    self, conclude_crash, conclude_info, conclude_message, conclude_request, Actor, ActorInMsg,
    InfoResult, InitResult, MessageResult, RequestResult,
};
use crate::tasks::callback::Outcome;
use crate::tasks::inbox::{Queue, Waiting};
use tokio::sync::oneshot;
use vstd::prelude::*;

verus! {

/// What an actor is doing.
#[verifier::reject_recursive_types(G)]
pub enum Stage<G: Actor> {
    /// Its initialization callback runs.
    Initializing,
    /// It waits for a message.
    Receiving {
        /// The actor's state.
        actor: G,
    },
    /// Its system message handler runs.
    HandlingInfo,
    /// Its request handler runs.
    HandlingRequest {
        /// Takes the reply.
        sender: oneshot::Sender<Result<G::Reply, ActorError>>,
    },
    /// Its message handler runs.
    HandlingMessage,
    /// Its teardown callback runs.
    TearingDown {
        /// How its run will end.
        result: Result<(), ActorError>,
    },
    /// It has ended.
    Finished,
}

/// Where in its life an actor stands.
#[verifier::reject_recursive_types(G)]
pub struct Lifecycle<G: Actor> {
    /// What it is doing.
    pub stage: Stage<G>,
    /// Whether system messages can still come.
    pub system_open: bool,
}

/// What happened: the end of what the last [`Command`] asked for.
#[verifier::reject_recursive_types(G)]
#[allow(inconsistent_fields)]
pub enum Event<G: Actor> {
    /// The initialization callback ended.
    Initialized {
        /// How.
        result: Result<InitResult<G>, G::Error>,
    },
    /// The actor's token has been cancelled.
    Cancelled,
    /// A system message came, or no more will.
    System {
        /// The message, if there is one.
        message: Option<SystemMessage>,
    },
    /// A message came, or no more will.
    Message {
        /// The message, if there is one.
        message: Option<ActorInMsg<G>>,
    },
    /// The system message handler ended.
    InfoHandled {
        /// The actor's state now.
        actor: G,
        /// How.
        outcome: Outcome<InfoResult>,
    },
    /// The request handler ended.
    RequestHandled {
        /// The actor's state now.
        actor: G,
        /// How.
        outcome: Outcome<RequestResult<G>>,
    },
    /// The message handler ended.
    MessageHandled {
        /// The actor's state now.
        actor: G,
        /// How.
        outcome: Outcome<MessageResult>,
    },
    /// The teardown callback ended.
    TornDown {
        /// How.
        result: Result<(), G::Error>,
    },
}

/// What is to be done next.
#[verifier::reject_recursive_types(G)]
#[allow(inconsistent_fields)]
pub enum Command<G: Actor> {
    /// Run the initialization callback.
    Init {
        /// The actor as it was started.
        actor: G,
    },
    /// Wait until there is something to [`Lifecycle::receive`].
    Receive,
    /// Run the system message handler.
    HandleInfo {
        /// The actor's state.
        actor: G,
        /// The system message.
        message: SystemMessage,
    },
    /// Run the request handler.
    HandleRequest {
        /// The actor's state.
        actor: G,
        /// The request.
        message: G::Request,
    },
    /// Run the message handler.
    HandleMessage {
        /// The actor's state.
        actor: G,
        /// The message.
        message: G::Message,
    },
    /// Run the teardown callback.
    Teardown {
        /// The actor's state.
        actor: G,
    },
    /// Nothing: the actor has ended.
    Finish {
        /// How its run ended.
        result: Result<(), ActorError>,
    },
}

/// A reply and where it goes.
#[verifier::reject_recursive_types(G)]
pub struct Reply<G: Actor> {
    /// Takes the reply.
    pub sender: oneshot::Sender<Result<G::Reply, ActorError>>,
    /// The reply.
    pub response: Result<G::Reply, ActorError>,
}

/// One step of an actor's life.
#[verifier::reject_recursive_types(G)]
pub struct Step<G: Actor> {
    /// Where the actor stands after it.
    pub lifecycle: Lifecycle<G>,
    /// The reply to send, if there is one.
    pub reply: Option<Reply<G>>,
    /// Whether the actor's token is to be cancelled.
    pub cancel: bool,
    /// What is to be done then.
    pub command: Command<G>,
}

/// What has come for an actor and is not received yet.
#[verifier::reject_recursive_types(G)]
pub struct Inbox<G: Actor> {
    /// Whether its token has been cancelled.
    pub cancelled: bool,
    /// Its system messages.
    pub system: Queue<SystemMessage>,
    /// Its other messages.
    pub mailbox: Queue<ActorInMsg<G>>,
}

/// What an inbox holds.
#[verifier::ext_equal]
#[verifier::reject_recursive_types(G)]
pub struct Incoming<G: Actor> {
    /// Whether the actor's token has been cancelled.
    pub cancelled: bool,
    /// The system messages.
    pub system: Waiting<SystemMessage>,
    /// The other messages.
    pub mailbox: Waiting<ActorInMsg<G>>,
}

impl<G: Actor> View for Inbox<G> {
    type V = Incoming<G>;

    open spec fn view(&self) -> Incoming<G> {
        Incoming { cancelled: self.cancelled, system: self.system@, mailbox: self.mailbox@ }
    }
}

impl<G: Actor> Inbox<G> {
    /// The inbox of an actor for which nothing has come yet.
    pub fn new() -> (r: Self)
        ensures
            r@ == (Incoming::<G> {
                cancelled: false,
                system: Waiting::nothing(),
                mailbox: Waiting::nothing(),
            }),
    {
        Inbox { cancelled: false, system: Queue::new(), mailbox: Queue::new() }
    }
}

impl<G: Actor> Step<G> {
    /// The actor goes back to receiving.
    pub open spec fn receive(actor: G, system_open: bool, reply: Option<Reply<G>>) -> Self {
        Step {
            lifecycle: Lifecycle { stage: Stage::Receiving { actor }, system_open },
            reply,
            cancel: false,
            command: Command::Receive,
        }
    }

    /// The actor stops: its token is cancelled and it is torn down.
    pub open spec fn stop(
        actor: G,
        system_open: bool,
        reply: Option<Reply<G>>,
        result: Result<(), ActorError>,
    ) -> Self {
        Step {
            lifecycle: Lifecycle { stage: Stage::TearingDown { result }, system_open },
            reply,
            cancel: true,
            command: Command::Teardown { actor },
        }
    }

    /// The actor goes back to receiving if it goes on, and stops otherwise.
    pub open spec fn handled(
        goes_on: bool,
        actor: G,
        system_open: bool,
        reply: Option<Reply<G>>,
        result: Result<(), ActorError>,
    ) -> Self {
        if goes_on {
            Self::receive(actor, system_open, reply)
        } else {
            Self::stop(actor, system_open, reply, result)
        }
    }

    /// A handler is to run.
    pub open spec fn handle(stage: Stage<G>, system_open: bool, command: Command<G>) -> Self {
        Step {
            lifecycle: Lifecycle { stage, system_open },
            reply: None,
            cancel: false,
            command,
        }
    }

    /// The actor has ended.
    pub open spec fn finish(
        cancel: bool,
        system_open: bool,
        result: Result<(), ActorError>,
    ) -> Self {
        Step {
            lifecycle: Lifecycle { stage: Stage::Finished, system_open },
            reply: None,
            cancel,
            command: Command::Finish { result },
        }
    }
}

impl<G: Actor> Lifecycle<G> {
    /// An actor that has just been started.
    pub open spec fn starting() -> Self {
        Lifecycle { stage: Stage::Initializing, system_open: true }
    }

    /// Whether the event can end what the actor is doing.
    pub open spec fn awaits(self, event: Event<G>) -> bool {
        match self.stage {
            Stage::Initializing => event is Initialized,
            Stage::Receiving { .. } => event is Cancelled || event is Message || event is System
                && self.system_open,
            Stage::HandlingInfo => event is InfoHandled,
            Stage::HandlingRequest { .. } => event is RequestHandled,
            Stage::HandlingMessage => event is MessageHandled,
            Stage::TearingDown { .. } => event is TornDown,
            Stage::Finished => false,
        }
    }

    /// The step that follows an event which the actor awaits.
    pub open spec fn spec_next(self, event: Event<G>) -> Step<G> {
        match (self.stage, event) {
            (Stage::Initializing, Event::Initialized { result: Ok(InitResult::Success(actor)) }) =>
                Step::receive(actor, self.system_open, None),
            // The callback has dealt with the failure: nothing to report, but
            // there is a state to tear down.
            (Stage::Initializing, Event::Initialized { result: Ok(InitResult::NoSuccess(actor)) }) =>
                Step::stop(actor, self.system_open, None, Ok(())),
            // Nobody has dealt with this one: it is a crash, and no state is
            // left that could be torn down.
            (Stage::Initializing, Event::Initialized { result: Err(_) }) => Step::finish(
                true,
                self.system_open,
                Err(ActorError::Initialization),
            ),
            (Stage::Receiving { actor }, Event::Cancelled) => Step::stop(
                actor,
                self.system_open,
                None,
                Ok(()),
            ),
            (Stage::Receiving { actor }, Event::System { message: Some(message) }) => Step::handle(
                Stage::HandlingInfo,
                self.system_open,
                Command::HandleInfo { actor, message },
            ),
            // From here on only the mailbox is received from.
            (Stage::Receiving { actor }, Event::System { message: None }) => Step::receive(
                actor,
                false,
                None,
            ),
            (
                Stage::Receiving { actor },
                Event::Message { message: Some(ActorInMsg::Call { sender, message }) },
            ) => Step::handle(
                Stage::HandlingRequest { sender },
                self.system_open,
                Command::HandleRequest { actor, message },
            ),
            (
                Stage::Receiving { actor },
                Event::Message { message: Some(ActorInMsg::Cast { message }) },
            ) => Step::handle(
                Stage::HandlingMessage,
                self.system_open,
                Command::HandleMessage { actor, message },
            ),
            // Nobody is left who could send a message.
            (Stage::Receiving { actor }, Event::Message { message: None }) => Step::stop(
                actor,
                self.system_open,
                None,
                Ok(()),
            ),
            (Stage::HandlingInfo, Event::InfoHandled { actor, outcome }) => Step::handled(
                actor::info_goes_on(outcome),
                actor,
                self.system_open,
                None,
                actor::crash_of(outcome),
            ),
            (Stage::HandlingRequest { sender }, Event::RequestHandled { actor, outcome }) =>
                Step::handled(
                    actor::request_goes_on(outcome),
                    actor,
                    self.system_open,
                    Some(Reply { sender, response: actor::request_response(outcome) }),
                    actor::crash_of(outcome),
                ),
            (Stage::HandlingMessage, Event::MessageHandled { actor, outcome }) => Step::handled(
                actor::message_goes_on(outcome),
                actor,
                self.system_open,
                None,
                actor::crash_of(outcome),
            ),
            // How teardown ended changes nothing.
            (Stage::TearingDown { result }, _) => Step::finish(false, self.system_open, result),
            _ => Step::finish(false, self.system_open, Ok(())),
        }
    }

    /// What the actor receives of what has come, if it receives anything:
    /// cancellation comes before all, and system messages come before ordinary
    /// ones, as long as they can come.
    pub open spec fn spec_received(self, inbox: Incoming<G>) -> Option<Event<G>> {
        if inbox.cancelled {
            Some(Event::Cancelled)
        } else if self.system_open && inbox.system.ready() {
            Some(Event::System { message: inbox.system.oldest() })
        } else if inbox.mailbox.ready() {
            Some(Event::Message { message: inbox.mailbox.oldest() })
        } else {
            None
        }
    }

    /// What has come and is left after the actor received.
    pub open spec fn spec_left(self, inbox: Incoming<G>) -> Incoming<G> {
        match self.spec_received(inbox) {
            Some(Event::System { .. }) => Incoming { system: inbox.system.rest(), ..inbox },
            Some(Event::Message { .. }) => Incoming { mailbox: inbox.mailbox.rest(), ..inbox },
            _ => inbox,
        }
    }

    /// An actor that has just been started: the first thing to do is to
    /// initialize it.
    pub fn start(actor: G) -> (r: (Self, Command<G>))
        ensures
            r.0 == Self::starting(),
            r.1 == (Command::Init { actor }),
    {
        (Lifecycle { stage: Stage::Initializing, system_open: true }, Command::Init { actor })
    }

    /// Whether the event can end what the actor is doing.
    pub fn is_awaiting(&self, event: &Event<G>) -> (r: bool)
        ensures
            r == self.awaits(*event),
    {
        match (&self.stage, event) {
            (Stage::Initializing, Event::Initialized { .. }) => true,
            (Stage::Receiving { .. }, Event::Cancelled) => true,
            (Stage::Receiving { .. }, Event::Message { .. }) => true,
            (Stage::Receiving { .. }, Event::System { .. }) => self.system_open,
            (Stage::HandlingInfo, Event::InfoHandled { .. }) => true,
            (Stage::HandlingRequest { .. }, Event::RequestHandled { .. }) => true,
            (Stage::HandlingMessage, Event::MessageHandled { .. }) => true,
            (Stage::TearingDown { .. }, Event::TornDown { .. }) => true,
            _ => false,
        }
    }

    /// Receives what is next of what has come, if there is anything.
    pub fn receive(&self, inbox: &mut Inbox<G>) -> (r: Option<Event<G>>)
        ensures
            r == self.spec_received(old(inbox)@),
            final(inbox)@ == self.spec_left(old(inbox)@),
            r matches Some(event) ==> (self.stage is Receiving ==> self.awaits(event)),
    {
        if inbox.cancelled {
            Some(Event::Cancelled)
        } else if self.system_open && inbox.system.is_ready() {
            Some(Event::System { message: inbox.system.take() })
        } else if inbox.mailbox.is_ready() {
            Some(Event::Message { message: inbox.mailbox.take() })
        } else {
            None
        }
    }

    /// Decides what follows an event.
    pub fn next(self, event: Event<G>) -> (r: Step<G>)
        requires
            self.awaits(event),
        ensures
            r == self.spec_next(event),
    {
        let system_open = self.system_open;
        match (self.stage, event) {
            (Stage::Initializing, Event::Initialized { result }) => match result {
                Ok(InitResult::Success(actor)) => go_on(actor, system_open, None),
                Ok(InitResult::NoSuccess(actor)) => stop(actor, system_open, None, Ok(())),
                Err(_) => finish(true, system_open, Err(ActorError::Initialization)),
            },
            (Stage::Receiving { actor }, Event::Cancelled) => {
                stop(actor, system_open, None, Ok(()))
            },
            (Stage::Receiving { actor }, Event::System { message }) => match message {
                Some(message) => Step {
                    lifecycle: Lifecycle { stage: Stage::HandlingInfo, system_open },
                    reply: None,
                    cancel: false,
                    command: Command::HandleInfo { actor, message },
                },
                None => go_on(actor, false, None),
            },
            (Stage::Receiving { actor }, Event::Message { message }) => match message {
                Some(ActorInMsg::Call { sender, message }) => Step {
                    lifecycle: Lifecycle { stage: Stage::HandlingRequest { sender }, system_open },
                    reply: None,
                    cancel: false,
                    command: Command::HandleRequest { actor, message },
                },
                Some(ActorInMsg::Cast { message }) => Step {
                    lifecycle: Lifecycle { stage: Stage::HandlingMessage, system_open },
                    reply: None,
                    cancel: false,
                    command: Command::HandleMessage { actor, message },
                },
                None => stop(actor, system_open, None, Ok(())),
            },
            (Stage::HandlingInfo, Event::InfoHandled { actor, outcome }) => {
                let result = conclude_crash(&outcome);
                if conclude_info(outcome) {
                    go_on(actor, system_open, None)
                } else {
                    stop(actor, system_open, None, result)
                }
            },
            (Stage::HandlingRequest { sender }, Event::RequestHandled { actor, outcome }) => {
                let result = conclude_crash(&outcome);
                let (goes_on, response) = conclude_request(outcome);
                let reply = Some(Reply { sender, response });
                if goes_on {
                    go_on(actor, system_open, reply)
                } else {
                    stop(actor, system_open, reply, result)
                }
            },
            (Stage::HandlingMessage, Event::MessageHandled { actor, outcome }) => {
                let result = conclude_crash(&outcome);
                if conclude_message(outcome) {
                    go_on(actor, system_open, None)
                } else {
                    stop(actor, system_open, None, result)
                }
            },
            (Stage::TearingDown { result }, _) => finish(false, system_open, result),
            _ => finish(false, system_open, Ok(())),
        }
    }
}

/// The actor goes back to receiving.
fn go_on<G: Actor>(actor: G, system_open: bool, reply: Option<Reply<G>>) -> (r: Step<G>)
    ensures
        r == Step::receive(actor, system_open, reply),
{
    Step {
        lifecycle: Lifecycle { stage: Stage::Receiving { actor }, system_open },
        reply,
        cancel: false,
        command: Command::Receive,
    }
}

/// The actor stops.
fn stop<G: Actor>(
    actor: G,
    system_open: bool,
    reply: Option<Reply<G>>,
    result: Result<(), ActorError>,
) -> (r: Step<G>)
    ensures
        r == Step::stop(actor, system_open, reply, result),
{
    Step {
        lifecycle: Lifecycle { stage: Stage::TearingDown { result }, system_open },
        reply,
        cancel: true,
        command: Command::Teardown { actor },
    }
}

/// The actor has ended.
fn finish<G: Actor>(cancel: bool, system_open: bool, result: Result<(), ActorError>) -> (r: Step<G>)
    ensures
        r == Step::<G>::finish(cancel, system_open, result),
{
    Step {
        lifecycle: Lifecycle { stage: Stage::Finished, system_open },
        reply: None,
        cancel,
        command: Command::Finish { result },
    }
}

} // verus!
