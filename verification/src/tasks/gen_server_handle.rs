//! Handles of generic servers.
use crate::channel::{
    answer, cancel, mailbox, post, reply_channel, Answered, AwaitedReply, Cancelled, Mailbox, Posted,
};
use crate::error::GenServerError;
use crate::tasks::callback::First;
use crate::tasks::gen_server::{GenServer, GenServerInMsg};
use crate::tasks::gen_server_loop::{Command, Event, Lifecycle};
use tokio::sync::mpsc::UnboundedSender;
use tokio_util::sync::CancellationToken;
use vstd::prelude::*;

verus! {

/// How long a caller waits for a reply if it does not say otherwise, in
/// seconds.
pub const DEFAULT_CALL_TIMEOUT_SECS: u64 = 5;

/// Handle of a running server.
#[derive(Debug)]
#[verifier::reject_recursive_types(G)]
pub struct GenServerHandle<G: GenServer + 'static> {
    /// The sending end of the server's mailbox.
    pub tx: UnboundedSender<GenServerInMsg<G>>,
    /// Which server it is.
    pub identity: ServerIdentity,
}

/// Which server it is: the one with this token.
#[derive(Debug)]
pub struct ServerIdentity {
    // Cancelling it stops the server.
    cancellation_token: CancellationToken,
}

impl ServerIdentity {
    /// The server's token.
    pub closed spec fn token(self) -> CancellationToken {
        self.cancellation_token
    }
}

impl Clone for ServerIdentity {
    fn clone(&self) -> (r: Self)
        ensures
            r == *self,
    {
        ServerIdentity { cancellation_token: self.cancellation_token.clone() }
    }
}

/// A server that is ready to run.
#[verifier::reject_recursive_types(G)]
pub struct Launch<G: GenServer + 'static> {
    /// The handle for whoever starts the server.
    pub handle: GenServerHandle<G>,
    /// The handle that the server's callbacks are given.
    pub own: GenServerHandle<G>,
    /// The server's mailbox.
    pub rx: Mailbox<GenServerInMsg<G>>,
    /// Where in its life it stands.
    pub lifecycle: Lifecycle<G>,
    /// What is to be done first.
    pub command: Command<G>,
}

/// A call that is in a server's mailbox.
#[verifier::reject_recursive_types(G)]
pub struct PendingCall<G: GenServer> {
    /// Where the reply comes.
    pub reply: AwaitedReply<Result<G::OutMsg, GenServerError>>,
    /// Shows that the call was put there.
    pub posted: Posted<GenServerInMsg<G>>,
}

/// What a server's mailbox did not take.
#[verifier::reject_recursive_types(G)]
pub struct Refused<G: GenServer> {
    /// What the sender is told.
    pub error: GenServerError,
    /// Shows what was handed to the mailbox.
    pub posted: Posted<GenServerInMsg<G>>,
}

/// What taking a server one step on did, and what is to be done next.
#[verifier::reject_recursive_types(G)]
pub struct Advance<G: GenServer> {
    /// Where the server stands now.
    pub lifecycle: Lifecycle<G>,
    /// What is to be done next.
    pub command: Command<G>,
    /// Shows that the reply was sent, if one was due.
    pub replied: Option<Answered<Result<G::OutMsg, GenServerError>>>,
    /// Shows that the token was cancelled, if the server stopped.
    pub cancelled: Option<Cancelled>,
}

impl<G: GenServer> Clone for GenServerHandle<G> {
    fn clone(&self) -> (r: Self)
        ensures
            r == *self,
    {
        GenServerHandle { tx: self.tx.clone(), identity: self.identity.clone() }
    }
}

impl<G: GenServer> GenServerHandle<G> {
    /// The server's token.
    pub open spec fn spec_token(self) -> CancellationToken {
        self.identity.token()
    }

    /// The sending end of the server's mailbox.
    pub open spec fn spec_tx(self) -> UnboundedSender<GenServerInMsg<G>> {
        self.tx
    }

    /// Prepares a server to run: it gets a mailbox and a token.
    pub fn new(server: G) -> (r: Launch<G>)
        ensures
            r.own == r.handle,
            r.rx.of() == r.handle.spec_tx(),
            r.lifecycle == Lifecycle::<G>::Initializing,
            r.command == (Command::Init { server }),
    {
        let (tx, rx) = mailbox();
        let identity = ServerIdentity { cancellation_token: CancellationToken::new() };
        let handle = GenServerHandle { tx, identity };
        let own = handle.clone();
        let (lifecycle, command) = Lifecycle::start(server);
        Launch { handle, own, rx, lifecycle, command }
    }

    /// The sending end of the server's mailbox.
    pub fn sender(&self) -> (r: UnboundedSender<GenServerInMsg<G>>)
        ensures
            r == self.spec_tx(),
    {
        self.tx.clone()
    }

    /// The server's token. Cancelling it stops the server.
    pub fn cancellation_token(&self) -> (r: CancellationToken)
        ensures
            r == self.spec_token(),
    {
        self.identity.cancellation_token.clone()
    }

    /// Hands a call to the server's mailbox. It is refused if the server is
    /// gone, and only then.
    pub fn begin_call(&self, message: G::CallMsg) -> (r: Result<PendingCall<G>, Refused<G>>)
        ensures
            match r {
                Ok(call) => call.posted.accepted() && call.posted.to() == self.spec_tx()
                    && call.posted.message() == (GenServerInMsg::<G>::Call {
                    sender: call.reply.of(),
                    message,
                }),
                Err(refused) => refused.error == GenServerError::Server
                    && !refused.posted.accepted() && refused.posted.to() == self.spec_tx() && (
                refused.posted.message() matches GenServerInMsg::Call { message: asked, .. }
                    && asked == message),
            },
    {
        let (sender, reply) = reply_channel();
        let posted = post(&self.tx, GenServerInMsg::Call { sender, message });
        match conclude_send(posted.is_accepted()) {
            Ok(()) => Ok(PendingCall { reply, posted }),
            Err(error) => Err(Refused { error, posted }),
        }
    }

    /// Hands a message to the server's mailbox. It is refused if the server is
    /// gone, and only then.
    pub fn cast(&self, message: G::CastMsg) -> (r: Result<Posted<GenServerInMsg<G>>, Refused<G>>)
        ensures
            match r {
                Ok(posted) => posted.accepted() && posted.to() == self.spec_tx()
                    && posted.message() == (GenServerInMsg::<G>::Cast { message }),
                Err(refused) => refused.error == GenServerError::Server
                    && !refused.posted.accepted() && refused.posted.to() == self.spec_tx()
                    && refused.posted.message() == (GenServerInMsg::<G>::Cast { message }),
            },
    {
        self.hand_over(GenServerInMsg::Cast { message })
    }

    /// Hands over what is to go to the server's mailbox.
    fn hand_over(&self, message: GenServerInMsg<G>) -> (r: Result<Posted<GenServerInMsg<G>>, Refused<G>>)
        ensures
            match r {
                Ok(posted) => posted.accepted() && posted.to() == self.spec_tx()
                    && posted.message() == message,
                Err(refused) => refused.error == GenServerError::Server && !refused.posted.accepted()
                    && refused.posted.to() == self.spec_tx() && refused.posted.message() == message,
            },
    {
        let posted = post(&self.tx, message);
        match conclude_send(posted.is_accepted()) {
            Ok(()) => Ok(posted),
            Err(error) => Err(Refused { error, posted }),
        }
    }

    /// Takes the server one step on: sends the reply that is due, cancels the
    /// token if the server stops, and says what is to be done next.
    pub fn advance(&self, lifecycle: Lifecycle<G>, event: Event<G>) -> (r: Advance<G>)
        requires
            lifecycle.awaits(event),
        ensures
            ({
                let step = lifecycle.spec_next(event);
                &&& r.lifecycle == step.lifecycle
                &&& r.command == step.command
                &&& match step.reply {
                    Some(reply) => r.replied matches Some(replied) && replied.to() == reply.sender
                        && replied.value() == reply.response,
                    None => r.replied is None,
                }
                &&& if step.cancel {
                    r.cancelled matches Some(cancelled) && cancelled.token() == self.spec_token()
                } else {
                    r.cancelled is None
                }
            }),
    {
        let step = lifecycle.next(event);
        let replied = match step.reply {
            // Where the caller does not wait any more the reply is dropped.
            Some(reply) => Some(answer(reply.sender, reply.response)),
            None => None,
        };
        let cancelled = if step.cancel {
            Some(cancel(&self.identity.cancellation_token))
        } else {
            None
        };
        Advance { lifecycle: step.lifecycle, command: step.command, replied, cancelled }
    }
}

/// What follows for the sender from whether the mailbox took a message: where
/// it did not, the server is gone.
pub fn conclude_send(accepted: bool) -> (r: Result<(), GenServerError>)
    ensures
        accepted ==> r == Ok::<(), GenServerError>(()),
        !accepted ==> r == Err::<(), GenServerError>(GenServerError::Server),
{
    if accepted {
        Ok(())
    } else {
        Err(GenServerError::Server)
    }
}

/// What a caller gets in the end, from how its waiting ended: with the server's
/// answer, with the server gone without one, or with the time run out.
pub fn conclude_call<R, D, T>(waited: Result<Result<Result<R, GenServerError>, D>, T>) -> (r:
    Result<R, GenServerError>)
    ensures
        r == match waited {
            Ok(Ok(answer)) => answer,
            Ok(Err(_)) => Err(GenServerError::Server),
            Err(_) => Err(GenServerError::CallTimeout),
        },
{
    match waited {
        Ok(Ok(answer)) => answer,
        Ok(Err(_)) => Err(GenServerError::Server),
        Err(_) => Err(GenServerError::CallTimeout),
    }
}

/// What a server is to be sent, from what came first: the message if the signal
/// did, and nothing if the server stopped before.
pub open spec fn due_message<G: GenServer>(first: First, message: G::CastMsg) -> Option<GenServerInMsg<G>> {
    match first {
        First::Cancelled => None,
        First::Signal => Some(GenServerInMsg::Cast { message }),
    }
}

/// What a server is to be sent, from what came first.
pub fn message_on<G: GenServer>(first: First, message: G::CastMsg) -> (r: Option<GenServerInMsg<G>>)
    ensures
        r == due_message::<G>(first, message),
{
    match first {
        First::Cancelled => None,
        First::Signal => Some(GenServerInMsg::Cast { message }),
    }
}

/// Hands a server's mailbox what [`message_on`] says is to be sent, if there is
/// anything: the message if the signal came first, and nothing if the server
/// stopped before.
pub fn send_message_on<G: GenServer>(
    handle: &GenServerHandle<G>,
    first: First,
    message: G::CastMsg,
) -> (r: Option<Result<Posted<GenServerInMsg<G>>, Refused<G>>>)
    ensures
        match due_message::<G>(first, message) {
            None => r is None,
            Some(due) => match r {
                Some(Ok(posted)) => posted.accepted() && posted.to() == handle.spec_tx()
                    && posted.message() == due,
                Some(Err(refused)) => refused.error == GenServerError::Server
                    && !refused.posted.accepted() && refused.posted.to() == handle.spec_tx()
                    && refused.posted.message() == due,
                None => false,
            },
        },
{
    match message_on::<G>(first, message) {
        None => None,
        Some(due) => Some(handle.hand_over(due)),
    }
}

/// A signal that came first makes the message due, as it is; a cancellation that
/// came first makes nothing due.
pub proof fn law_only_a_signal_sends<G: GenServer>(first: First, message: G::CastMsg)
    ensures
        match due_message::<G>(first, message) {
            Some(due) => first == First::Signal && due == (GenServerInMsg::<G>::Cast { message }),
            None => first == First::Cancelled,
        },
{
}

/// A caller who does not say otherwise waits five seconds.
pub proof fn law_callers_wait_five_seconds()
    ensures
        DEFAULT_CALL_TIMEOUT_SECS == 5,
{
}

/// A handle leads to the mailbox whose sending end it holds, and to the one whose
/// identity it holds.
pub proof fn law_a_handle_leads_where_it_says<G: GenServer>(handle: GenServerHandle<G>)
    ensures
        handle.spec_tx() == handle.tx,
        handle.spec_token() == handle.identity.token(),
{
}

} // verus!
