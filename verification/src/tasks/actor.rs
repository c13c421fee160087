//! Actors: what their callbacks may answer, and what that means for the actor
//! and for whoever sent the message.
use crate::error::ActorError;
use crate::tasks::callback::Outcome;
use tokio::sync::oneshot;
use vstd::prelude::*;

verus! {

/// A process that handles requests, messages and system messages one at a time.
///
/// The callbacks themselves run on the runtime; here are the types that they
/// speak of.
pub trait Actor: Send + Sized {
    /// What callers ask and wait for an answer to.
    type Request: Clone + Send + Sync;

    /// What senders send without waiting.
    type Message: Clone + Send + Sync;

    /// What callers get back.
    type Reply: Send;

    /// How initialization and teardown fail.
    type Error: Send;
}

/// What stands in an actor's mailbox.
#[allow(inconsistent_fields)]
#[verifier::reject_recursive_types(G)]
pub enum ActorInMsg<G: Actor> {
    /// A request, and where its reply goes.
    Call {
        /// Takes the reply.
        sender: oneshot::Sender<Result<G::Reply, ActorError>>,
        /// The request.
        message: G::Request,
    },
    /// A message that gets no reply.
    Cast {
        /// The message.
        message: G::Message,
    },
}

/// What a request handler answers.
pub enum RequestResult<G: Actor> {
    /// Reply, and go on.
    Reply(G::Reply),
    /// The actor does not handle such requests.
    Unused,
    /// Reply, and stop.
    Stop(G::Reply),
}

/// What a message handler answers.
#[derive(Debug, Clone, Copy, PartialEq, Eq, Structural)]
pub enum MessageResult {
    /// Go on.
    NoReply,
    /// The actor does not handle such messages.
    Unused,
    /// Stop.
    Stop,
}

/// What a system message handler answers.
#[derive(Debug, Clone, Copy, PartialEq, Eq, Structural)]
pub enum InfoResult {
    /// Go on.
    NoReply,
    /// Stop.
    Stop,
}

/// How initialization ended, where it did not fail with an error.
pub enum InitResult<G: Actor> {
    /// The actor is ready to receive.
    Success(G),
    /// It is not, and the callback has dealt with that.
    NoSuccess(G),
}

/// The initialization of an actor that provides none: it succeeds, and the
/// actor is as it was.
pub fn default_init<G: Actor>(actor: G) -> (r: Result<InitResult<G>, G::Error>)
    ensures
        r == Ok::<InitResult<G>, G::Error>(InitResult::Success(actor)),
{
    Ok(InitResult::Success(actor))
}

/// The answer to a request where an actor provides no handler.
pub fn default_request<G: Actor>() -> (r: RequestResult<G>)
    ensures
        r == RequestResult::<G>::Unused,
{
    RequestResult::Unused
}

/// The answer to a message where an actor provides no handler.
pub fn default_message() -> (r: MessageResult)
    ensures
        r == MessageResult::Unused,
{
    MessageResult::Unused
}

/// The answer to a system message where an actor provides no handler: the
/// message is ignored.
pub fn default_info() -> (r: InfoResult)
    ensures
        r == InfoResult::NoReply,
{
    InfoResult::NoReply
}

/// The teardown of an actor that provides none.
pub fn default_teardown<G: Actor>() -> (r: Result<(), G::Error>)
    ensures
        r == Ok::<(), G::Error>(()),
{
    Ok(())
}

/// Whether the actor goes on after its request handler ended so.
pub open spec fn request_goes_on<G: Actor>(outcome: Outcome<RequestResult<G>>) -> bool {
    outcome matches Outcome::Returned(answer) && answer is Reply
}

/// What the caller gets after the request handler ended so.
pub open spec fn request_response<G: Actor>(outcome: Outcome<RequestResult<G>>) -> Result<
    G::Reply,
    ActorError,
> {
    match outcome {
        Outcome::Returned(RequestResult::Reply(reply)) => Ok(reply),
        Outcome::Returned(RequestResult::Stop(reply)) => Ok(reply),
        Outcome::Returned(RequestResult::Unused) => Err(ActorError::RequestUnused),
        Outcome::Panicked => Err(ActorError::Callback),
    }
}

/// Whether the actor goes on after its message handler ended so.
pub open spec fn message_goes_on(outcome: Outcome<MessageResult>) -> bool {
    outcome == Outcome::Returned(MessageResult::NoReply)
}

/// Whether the actor goes on after its system message handler ended so.
pub open spec fn info_goes_on(outcome: Outcome<InfoResult>) -> bool {
    outcome == Outcome::Returned(InfoResult::NoReply)
}

/// How the run of an actor ends that stopped after a handler ended so: with an
/// error where the handler panicked, which is a crash.
pub open spec fn crash_of<T>(outcome: Outcome<T>) -> Result<(), ActorError> {
    match outcome {
        Outcome::Returned(_) => Ok(()),
        Outcome::Panicked => Err(ActorError::Callback),
    }
}

/// How the run of an actor ends that stopped after a handler ended so.
pub fn conclude_crash<T>(outcome: &Outcome<T>) -> (r: Result<(), ActorError>)
    ensures
        r == crash_of(*outcome),
{
    match outcome {
        Outcome::Returned(_) => Ok(()),
        Outcome::Panicked => Err(ActorError::Callback),
    }
}

/// What follows from how a request handler ended: whether the actor goes on,
/// and what the caller gets.
pub fn conclude_request<G: Actor>(outcome: Outcome<RequestResult<G>>) -> (r: (
    bool,
    Result<G::Reply, ActorError>,
))
    ensures
        r.0 == request_goes_on(outcome),
        r.1 == request_response(outcome),
{
    match outcome {
        Outcome::Returned(RequestResult::Reply(reply)) => (true, Ok(reply)),
        Outcome::Returned(RequestResult::Stop(reply)) => (false, Ok(reply)),
        Outcome::Returned(RequestResult::Unused) => (false, Err(ActorError::RequestUnused)),
        Outcome::Panicked => (false, Err(ActorError::Callback)),
    }
}

/// Whether the actor goes on after its message handler ended so.
pub fn conclude_message(outcome: Outcome<MessageResult>) -> (r: bool)
    ensures
        r == message_goes_on(outcome),
{
    match outcome {
        Outcome::Returned(MessageResult::NoReply) => true,
        Outcome::Returned(MessageResult::Stop) => false,
        Outcome::Returned(MessageResult::Unused) => false,
        Outcome::Panicked => false,
    }
}

/// Whether the actor goes on after its system message handler ended so.
pub fn conclude_info(outcome: Outcome<InfoResult>) -> (r: bool)
    ensures
        r == info_goes_on(outcome),
{
    match outcome {
        Outcome::Returned(InfoResult::NoReply) => true,
        Outcome::Returned(InfoResult::Stop) => false,
        Outcome::Panicked => false,
    }
}

/// What a request handler answers reaches the caller as it is, and the actor
/// goes on after a plain reply and after nothing else.
pub proof fn law_a_request_handler_decides<G: Actor>(reply: G::Reply)
    ensures
        request_goes_on(Outcome::Returned(RequestResult::<G>::Reply(reply))),
        !request_goes_on(Outcome::Returned(RequestResult::<G>::Stop(reply))),
        !request_goes_on(Outcome::Returned(RequestResult::<G>::Unused)),
        !request_goes_on(Outcome::<RequestResult<G>>::Panicked),
        request_response(Outcome::Returned(RequestResult::<G>::Reply(reply))) == Ok::<
            G::Reply,
            ActorError,
        >(reply),
        request_response(Outcome::Returned(RequestResult::<G>::Stop(reply))) == Ok::<
            G::Reply,
            ActorError,
        >(reply),
        request_response(Outcome::Returned(RequestResult::<G>::Unused)) == Err::<
            G::Reply,
            ActorError,
        >(ActorError::RequestUnused),
        request_response(Outcome::<RequestResult<G>>::Panicked) == Err::<G::Reply, ActorError>(
            ActorError::Callback,
        ),
{
}

/// An actor goes on after a message if and only if its handler answered so.
pub proof fn law_a_message_handler_decides(outcome: Outcome<MessageResult>)
    ensures
        message_goes_on(outcome) <==> (outcome matches Outcome::Returned(answer) && answer
            == MessageResult::NoReply),
{
}

/// An actor goes on after a system message if and only if its handler answered
/// so.
pub proof fn law_a_system_message_handler_decides(outcome: Outcome<InfoResult>)
    ensures
        info_goes_on(outcome) <==> (outcome matches Outcome::Returned(answer) && answer
            == InfoResult::NoReply),
{
}

/// A handler that panics is a crash, and no other end of a handler is.
pub proof fn law_only_a_panic_is_a_crash<T>(outcome: Outcome<T>)
    ensures
        crash_of(outcome) is Ok <==> outcome is Returned,
        crash_of(outcome) matches Err(error) ==> error == ActorError::Callback,
{
}

} // verus!
