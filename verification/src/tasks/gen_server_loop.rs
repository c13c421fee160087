//! The life of a generic server: initialization, receiving and handling one
//! message after another, teardown.
//!
//! What takes time (a callback, waiting for a message) runs on the runtime.
//! [`Lifecycle`] decides what is to be done next and is told how it ended.
use crate::error::GenServerError;
use crate::tasks::callback::Outcome;
use crate::tasks::gen_server::{
    self, conclude_call_handler, conclude_cast_handler, CallResponse, CastResponse, GenServer,
    GenServerInMsg, InitResult,
};
use crate::tasks::inbox::{Queue, Waiting};
use tokio::sync::oneshot;
use vstd::prelude::*;

verus! {

/// Where in its life a server stands.
#[verifier::reject_recursive_types(G)]
pub enum Lifecycle<G: GenServer> {
    /// Its initialization callback runs.
    Initializing,
    /// It waits for a message.
    Receiving {
        /// The server's state.
        server: G,
    },
    /// Its call handler runs.
    HandlingCall {
        /// Takes the reply.
        sender: oneshot::Sender<Result<G::OutMsg, GenServerError>>,
    },
    /// Its cast handler runs.
    HandlingCast,
    /// Its teardown callback runs.
    TearingDown,
    /// It has ended.
    Finished,
}

/// What happened: the end of what the last [`Command`] asked for.
#[verifier::reject_recursive_types(G)]
#[allow(inconsistent_fields)]
pub enum Event<G: GenServer> {
    /// The initialization callback ended.
    Initialized {
        /// How.
        result: Result<InitResult<G>, G::Error>,
    },
    /// The server's token has been cancelled.
    Cancelled,
    /// A message came, or no more will.
    Message {
        /// The message, if there is one.
        message: Option<GenServerInMsg<G>>,
    },
    /// The call handler ended.
    CallHandled {
        /// The server's state now.
        server: G,
        /// How.
        outcome: Outcome<CallResponse<G>>,
    },
    /// The cast handler ended.
    CastHandled {
        /// The server's state now.
        server: G,
        /// How.
        outcome: Outcome<CastResponse>,
    },
    /// The teardown callback ended.
    TornDown {
        /// How.
        result: Result<(), G::Error>,
    },
}

/// What is to be done next.
#[verifier::reject_recursive_types(G)]
#[allow(inconsistent_fields)]
pub enum Command<G: GenServer> {
    /// Run the initialization callback.
    Init {
        /// The server as it was started.
        server: G,
    },
    /// Wait until there is something to [`Lifecycle::receive`].
    Receive,
    /// Run the call handler.
    HandleCall {
        /// The server's state.
        server: G,
        /// What is asked.
        message: G::CallMsg,
    },
    /// Run the cast handler.
    HandleCast {
        /// The server's state.
        server: G,
        /// The message.
        message: G::CastMsg,
    },
    /// Run the teardown callback.
    Teardown {
        /// The server's state.
        server: G,
    },
    /// Nothing: the server has ended.
    Finish {
        /// How its run ended.
        result: Result<(), GenServerError>,
    },
}

/// A reply and where it goes.
#[verifier::reject_recursive_types(G)]
pub struct Reply<G: GenServer> {
    /// Takes the reply.
    pub sender: oneshot::Sender<Result<G::OutMsg, GenServerError>>,
    /// The reply.
    pub response: Result<G::OutMsg, GenServerError>,
}

/// One step of a server's life.
#[verifier::reject_recursive_types(G)]
pub struct Step<G: GenServer> {
    /// Where the server stands after it.
    pub lifecycle: Lifecycle<G>,
    /// The reply to send, if there is one.
    pub reply: Option<Reply<G>>,
    /// Whether the server's token is to be cancelled.
    pub cancel: bool,
    /// What is to be done then.
    pub command: Command<G>,
}

/// What has come for a server and is not received yet.
#[verifier::reject_recursive_types(G)]
pub struct Inbox<G: GenServer> {
    /// Whether its token has been cancelled.
    pub cancelled: bool,
    /// Its messages.
    pub mailbox: Queue<GenServerInMsg<G>>,
}

/// What an inbox holds.
#[verifier::ext_equal]
#[verifier::reject_recursive_types(G)]
pub struct Incoming<G: GenServer> {
    /// Whether the server's token has been cancelled.
    pub cancelled: bool,
    /// The messages.
    pub mailbox: Waiting<GenServerInMsg<G>>,
}

impl<G: GenServer> View for Inbox<G> {
    type V = Incoming<G>;

    open spec fn view(&self) -> Incoming<G> {
        Incoming { cancelled: self.cancelled, mailbox: self.mailbox@ }
    }
}

impl<G: GenServer> Inbox<G> {
    /// The inbox of a server for which nothing has come yet.
    pub fn new() -> (r: Self)
        ensures
            r@ == (Incoming::<G> { cancelled: false, mailbox: Waiting::nothing() }),
    {
        Inbox { cancelled: false, mailbox: Queue::new() }
    }
}

impl<G: GenServer> Step<G> {
    /// The server goes back to receiving.
    pub open spec fn receive(server: G, reply: Option<Reply<G>>) -> Self {
        Step {
            lifecycle: Lifecycle::Receiving { server },
            reply,
            cancel: false,
            command: Command::Receive,
        }
    }

    /// The server stops: its token is cancelled and it is torn down.
    pub open spec fn stop(server: G, reply: Option<Reply<G>>) -> Self {
        Step {
            lifecycle: Lifecycle::TearingDown,
            reply,
            cancel: true,
            command: Command::Teardown { server },
        }
    }

    /// The server goes back to receiving if it goes on, and stops otherwise.
    pub open spec fn handled(goes_on: bool, server: G, reply: Option<Reply<G>>) -> Self {
        if goes_on {
            Self::receive(server, reply)
        } else {
            Self::stop(server, reply)
        }
    }

    /// A handler is to run.
    pub open spec fn handle(lifecycle: Lifecycle<G>, command: Command<G>) -> Self {
        Step { lifecycle, reply: None, cancel: false, command }
    }

    /// The server has ended.
    pub open spec fn finish(cancel: bool) -> Self {
        Step {
            lifecycle: Lifecycle::Finished,
            reply: None,
            cancel,
            command: Command::Finish { result: Ok(()) },
        }
    }
}

impl<G: GenServer> Lifecycle<G> {
    /// Whether the event can end what the server is doing.
    pub open spec fn awaits(self, event: Event<G>) -> bool {
        match self {
            Lifecycle::Initializing => event is Initialized,
            Lifecycle::Receiving { .. } => event is Cancelled || event is Message,
            Lifecycle::HandlingCall { .. } => event is CallHandled,
            Lifecycle::HandlingCast => event is CastHandled,
            Lifecycle::TearingDown => event is TornDown,
            Lifecycle::Finished => false,
        }
    }

    /// The step that follows an event which the server awaits.
    pub open spec fn spec_next(self, event: Event<G>) -> Step<G> {
        match (self, event) {
            (
                Lifecycle::Initializing,
                Event::Initialized { result: Ok(InitResult::Success(server)) },
            ) => Step::receive(server, None),
            // The callback has dealt with the failure: nothing to report, but
            // there is a state to tear down.
            (
                Lifecycle::Initializing,
                Event::Initialized { result: Ok(InitResult::NoSuccess(server)) },
            ) => Step::stop(server, None),
            // No state is left that could be torn down.
            (Lifecycle::Initializing, Event::Initialized { result: Err(_) }) => Step::finish(true),
            (Lifecycle::Receiving { server }, Event::Cancelled) => Step::stop(server, None),
            (
                Lifecycle::Receiving { server },
                Event::Message { message: Some(GenServerInMsg::Call { sender, message }) },
            ) => Step::handle(
                Lifecycle::HandlingCall { sender },
                Command::HandleCall { server, message },
            ),
            (
                Lifecycle::Receiving { server },
                Event::Message { message: Some(GenServerInMsg::Cast { message }) },
            ) => Step::handle(Lifecycle::HandlingCast, Command::HandleCast { server, message }),
            // Nobody is left who could send a message.
            (Lifecycle::Receiving { server }, Event::Message { message: None }) => Step::stop(
                server,
                None,
            ),
            (Lifecycle::HandlingCall { sender }, Event::CallHandled { server, outcome }) =>
                Step::handled(
                    gen_server::call_goes_on(outcome),
                    server,
                    Some(Reply { sender, response: gen_server::call_response(outcome) }),
                ),
            (Lifecycle::HandlingCast, Event::CastHandled { server, outcome }) => Step::handled(
                gen_server::cast_goes_on(outcome),
                server,
                None,
            ),
            // How teardown ended changes nothing.
            _ => Step::finish(false),
        }
    }

    /// What a server receives of what has come, if it receives anything:
    /// cancellation comes first.
    pub open spec fn spec_received(inbox: Incoming<G>) -> Option<Event<G>> {
        if inbox.cancelled {
            Some(Event::Cancelled)
        } else if inbox.mailbox.ready() {
            Some(Event::Message { message: inbox.mailbox.oldest() })
        } else {
            None
        }
    }

    /// What has come and is left after a server received.
    pub open spec fn spec_left(inbox: Incoming<G>) -> Incoming<G> {
        match Self::spec_received(inbox) {
            Some(Event::Message { .. }) => Incoming { mailbox: inbox.mailbox.rest(), ..inbox },
            _ => inbox,
        }
    }

    /// A server that has just been started: the first thing to do is to
    /// initialize it.
    pub fn start(server: G) -> (r: (Self, Command<G>))
        ensures
            r.0 == Lifecycle::<G>::Initializing,
            r.1 == (Command::Init { server }),
    {
        (Lifecycle::Initializing, Command::Init { server })
    }

    /// Whether the event can end what the server is doing.
    pub fn is_awaiting(&self, event: &Event<G>) -> (r: bool)
        ensures
            r == self.awaits(*event),
    {
        match (self, event) {
            (Lifecycle::Initializing, Event::Initialized { .. }) => true,
            (Lifecycle::Receiving { .. }, Event::Cancelled) => true,
            (Lifecycle::Receiving { .. }, Event::Message { .. }) => true,
            (Lifecycle::HandlingCall { .. }, Event::CallHandled { .. }) => true,
            (Lifecycle::HandlingCast, Event::CastHandled { .. }) => true,
            (Lifecycle::TearingDown, Event::TornDown { .. }) => true,
            _ => false,
        }
    }

    /// Receives what is next of what has come, if there is anything.
    pub fn receive(&self, inbox: &mut Inbox<G>) -> (r: Option<Event<G>>)
        ensures
            r == Self::spec_received(old(inbox)@),
            final(inbox)@ == Self::spec_left(old(inbox)@),
            r matches Some(event) ==> (*self is Receiving ==> self.awaits(event)),
    {
        if inbox.cancelled {
            Some(Event::Cancelled)
        } else if inbox.mailbox.is_ready() {
            Some(Event::Message { message: inbox.mailbox.take() })
        } else {
            None
        }
    }

    /// Decides what follows an event.
    pub fn next(self, event: Event<G>) -> (r: Step<G>)
        requires
            self.awaits(event),
        ensures
            r == self.spec_next(event),
    {
        match (self, event) {
            (Lifecycle::Initializing, Event::Initialized { result }) => match result {
                Ok(InitResult::Success(server)) => go_on(server, None),
                Ok(InitResult::NoSuccess(server)) => stop(server, None),
                Err(_) => finish(true),
            },
            (Lifecycle::Receiving { server }, Event::Cancelled) => stop(server, None),
            (Lifecycle::Receiving { server }, Event::Message { message }) => match message {
                Some(GenServerInMsg::Call { sender, message }) => Step {
                    lifecycle: Lifecycle::HandlingCall { sender },
                    reply: None,
                    cancel: false,
                    command: Command::HandleCall { server, message },
                },
                Some(GenServerInMsg::Cast { message }) => Step {
                    lifecycle: Lifecycle::HandlingCast,
                    reply: None,
                    cancel: false,
                    command: Command::HandleCast { server, message },
                },
                None => stop(server, None),
            },
            (Lifecycle::HandlingCall { sender }, Event::CallHandled { server, outcome }) => {
                let (goes_on, response) = conclude_call_handler(outcome);
                let reply = Some(Reply { sender, response });
                if goes_on {
                    go_on(server, reply)
                } else {
                    stop(server, reply)
                }
            },
            (Lifecycle::HandlingCast, Event::CastHandled { server, outcome }) => {
                if conclude_cast_handler(outcome) {
                    go_on(server, None)
                } else {
                    stop(server, None)
                }
            },
            _ => finish(false),
        }
    }
}

/// The server goes back to receiving.
fn go_on<G: GenServer>(server: G, reply: Option<Reply<G>>) -> (r: Step<G>)
    ensures
        r == Step::receive(server, reply),
{
    Step {
        lifecycle: Lifecycle::Receiving { server },
        reply,
        cancel: false,
        command: Command::Receive,
    }
}

/// The server stops.
fn stop<G: GenServer>(server: G, reply: Option<Reply<G>>) -> (r: Step<G>)
    ensures
        r == Step::stop(server, reply),
{
    Step {
        lifecycle: Lifecycle::TearingDown,
        reply,
        cancel: true,
        command: Command::Teardown { server },
    }
}

/// The server has ended.
fn finish<G: GenServer>(cancel: bool) -> (r: Step<G>)
    ensures
        r == Step::<G>::finish(cancel),
{
    Step {
        lifecycle: Lifecycle::Finished,
        reply: None,
        cancel,
        command: Command::Finish { result: Ok(()) },
    }
}

} // verus!
