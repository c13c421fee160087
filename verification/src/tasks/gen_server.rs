//! Generic servers: what their callbacks may answer, and what that means for
//! the server and for whoever sent the message.
use crate::error::GenServerError;
use crate::tasks::callback::Outcome;
use tokio::sync::oneshot;
use vstd::prelude::*;

verus! {

/// A server that handles calls and casts one at a time.
///
/// The callbacks themselves run on the runtime; here are the types that they
/// speak of.
pub trait GenServer: Send + Sized {
    /// What callers ask and wait for an answer to.
    type CallMsg: Clone + Send + Sync;

    /// What senders send without waiting.
    type CastMsg: Clone + Send + Sync;

    /// What callers get back.
    type OutMsg: Send;

    /// How initialization and teardown fail.
    type Error: Send;
}

/// What stands in a server's mailbox.
#[allow(inconsistent_fields)]
#[verifier::reject_recursive_types(G)]
pub enum GenServerInMsg<G: GenServer> {
    /// A call, and where its reply goes.
    Call {
        /// Takes the reply.
        sender: oneshot::Sender<Result<G::OutMsg, GenServerError>>,
        /// What is asked.
        message: G::CallMsg,
    },
    /// A message that gets no reply.
    Cast {
        /// The message.
        message: G::CastMsg,
    },
}

/// What a call handler answers.
pub enum CallResponse<G: GenServer> {
    /// Reply, and go on.
    Reply(G::OutMsg),
    /// The server does not handle such calls.
    Unused,
    /// Reply, and stop.
    Stop(G::OutMsg),
}

/// What a cast handler answers.
#[derive(Debug, Clone, Copy, PartialEq, Eq, Structural)]
pub enum CastResponse {
    /// Go on.
    NoReply,
    /// The server does not handle such casts.
    Unused,
    /// Stop.
    Stop,
}

/// How initialization ended, where it did not fail with an error.
pub enum InitResult<G: GenServer> {
    /// The server is ready to receive.
    Success(G),
    /// It is not, and the callback has dealt with that.
    NoSuccess(G),
}

/// The initialization of a server that provides none: it succeeds, and the
/// server is as it was.
pub fn default_init<G: GenServer>(server: G) -> (r: Result<InitResult<G>, G::Error>)
    ensures
        r == Ok::<InitResult<G>, G::Error>(InitResult::Success(server)),
{
    Ok(InitResult::Success(server))
}

/// The answer to a call where a server provides no handler.
pub fn default_call<G: GenServer>() -> (r: CallResponse<G>)
    ensures
        r == CallResponse::<G>::Unused,
{
    CallResponse::Unused
}

/// The answer to a cast where a server provides no handler.
pub fn default_cast() -> (r: CastResponse)
    ensures
        r == CastResponse::Unused,
{
    CastResponse::Unused
}

/// The teardown of a server that provides none.
pub fn default_teardown<G: GenServer>() -> (r: Result<(), G::Error>)
    ensures
        r == Ok::<(), G::Error>(()),
{
    Ok(())
}

/// Whether the server goes on after its call handler ended so.
pub open spec fn call_goes_on<G: GenServer>(outcome: Outcome<CallResponse<G>>) -> bool {
    outcome matches Outcome::Returned(answer) && answer is Reply
}

/// What the caller gets after the call handler ended so.
pub open spec fn call_response<G: GenServer>(outcome: Outcome<CallResponse<G>>) -> Result<
    G::OutMsg,
    GenServerError,
> {
    match outcome {
        Outcome::Returned(CallResponse::Reply(reply)) => Ok(reply),
        Outcome::Returned(CallResponse::Stop(reply)) => Ok(reply),
        Outcome::Returned(CallResponse::Unused) => Err(GenServerError::CallMsgUnused),
        Outcome::Panicked => Err(GenServerError::Callback),
    }
}

/// Whether the server goes on after its cast handler ended so.
pub open spec fn cast_goes_on(outcome: Outcome<CastResponse>) -> bool {
    outcome == Outcome::Returned(CastResponse::NoReply)
}

/// What follows from how a call handler ended: whether the server goes on, and
/// what the caller gets.
pub fn conclude_call_handler<G: GenServer>(outcome: Outcome<CallResponse<G>>) -> (r: (
    bool,
    Result<G::OutMsg, GenServerError>,
))
    ensures
        r.0 == call_goes_on(outcome),
        r.1 == call_response(outcome),
{
    match outcome {
        Outcome::Returned(CallResponse::Reply(reply)) => (true, Ok(reply)),
        Outcome::Returned(CallResponse::Stop(reply)) => (false, Ok(reply)),
        Outcome::Returned(CallResponse::Unused) => (false, Err(GenServerError::CallMsgUnused)),
        Outcome::Panicked => (false, Err(GenServerError::Callback)),
    }
}

/// Whether the server goes on after its cast handler ended so.
pub fn conclude_cast_handler(outcome: Outcome<CastResponse>) -> (r: bool)
    ensures
        r == cast_goes_on(outcome),
{
    match outcome {
        Outcome::Returned(CastResponse::NoReply) => true,
        Outcome::Returned(CastResponse::Stop) => false,
        Outcome::Returned(CastResponse::Unused) => false,
        Outcome::Panicked => false,
    }
}

/// What a call handler answers reaches the caller as it is, and the server goes
/// on after a plain reply and after nothing else.
pub proof fn law_a_call_handler_decides<G: GenServer>(reply: G::OutMsg)
    ensures
        call_goes_on(Outcome::Returned(CallResponse::<G>::Reply(reply))),
        !call_goes_on(Outcome::Returned(CallResponse::<G>::Stop(reply))),
        !call_goes_on(Outcome::Returned(CallResponse::<G>::Unused)),
        !call_goes_on(Outcome::<CallResponse<G>>::Panicked),
        call_response(Outcome::Returned(CallResponse::<G>::Reply(reply))) == Ok::<
            G::OutMsg,
            GenServerError,
        >(reply),
        call_response(Outcome::Returned(CallResponse::<G>::Stop(reply))) == Ok::<
            G::OutMsg,
            GenServerError,
        >(reply),
        call_response(Outcome::Returned(CallResponse::<G>::Unused)) == Err::<
            G::OutMsg,
            GenServerError,
        >(GenServerError::CallMsgUnused),
        call_response(Outcome::<CallResponse<G>>::Panicked) == Err::<G::OutMsg, GenServerError>(
            GenServerError::Callback,
        ),
{
}

/// A server goes on after a cast if and only if its handler answered so.
pub proof fn law_a_cast_handler_decides(outcome: Outcome<CastResponse>)
    ensures
        cast_goes_on(outcome) <==> (outcome matches Outcome::Returned(answer) && answer
            == CastResponse::NoReply),
{
}

} // verus!
