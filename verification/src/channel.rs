//! The channels and cancellation tokens of the runtime, as this crate sees them.
//!
//! All the state that a channel or a token has is shared between its handles
//! and changes behind them, so a handle's value here stands for which channel
//! or token it belongs to, and for nothing else. What is in a channel, whether
//! its other end is still there, and whether a token is cancelled by now, no
//! contract says.
//!
//! What was handed to a channel, and which token was cancelled or looked at, the
//! receipts say that [`Posted`], [`Answered`], [`Cancelled`] and [`Looked`] are:
//! nobody has one without the call having been made. That no other call was made
//! a receipt does not say. Which two ends make up one channel,
//! [`Mailbox`] and [`AwaitedReply`] say in the same way.
use tokio::sync::mpsc::{UnboundedReceiver, UnboundedSender};
use tokio::sync::oneshot;
use tokio_util::sync::CancellationToken;
use vstd::prelude::*;

verus! {

/// `tokio::sync::mpsc::UnboundedSender`, the sending end of a mailbox.
#[verifier::external_type_specification]
#[verifier::external_body]
#[verifier::reject_recursive_types(T)]
pub struct ExUnboundedSender<T>(UnboundedSender<T>);

/// `tokio::sync::mpsc::UnboundedReceiver`, the receiving end of a mailbox.
#[verifier::external_type_specification]
#[verifier::external_body]
#[verifier::reject_recursive_types(T)]
pub struct ExUnboundedReceiver<T>(UnboundedReceiver<T>);

/// `tokio::sync::oneshot::Sender`, the end through which one reply is sent.
#[verifier::external_type_specification]
#[verifier::external_body]
#[verifier::reject_recursive_types(T)]
pub struct ExOneshotSender<T>(oneshot::Sender<T>);

/// `tokio::sync::oneshot::Receiver`, the end at which one reply is awaited.
#[verifier::external_type_specification]
#[verifier::external_body]
#[verifier::reject_recursive_types(T)]
pub struct ExOneshotReceiver<T>(oneshot::Receiver<T>);

/// `tokio::sync::oneshot::error::RecvError`, which the awaited end names as
/// its error.
#[verifier::external_type_specification]
#[verifier::external_body]
pub struct ExOneshotRecvError(oneshot::error::RecvError);

/// `tokio_util::sync::CancellationToken`.
#[verifier::external_type_specification]
#[verifier::external_body]
pub struct ExCancellationToken(CancellationToken);

/// Cloning an `UnboundedSender` copies the reference to its channel: the clone
/// is another handle of the same channel, which no use tells from the first.
pub assume_specification<T>[ <UnboundedSender<T> as Clone>::clone ](
    tx: &UnboundedSender<T>,
) -> (copy: UnboundedSender<T>)
    ensures
        copy == *tx,
;

/// `CancellationToken::new` makes a token that is not cancelled. Whether it is
/// cancelled later its value does not show.
pub assume_specification[ CancellationToken::new ]() -> (token: CancellationToken);

/// Cloning a `CancellationToken` gives a token that is cancelled whenever the
/// first is, and the other way round: the same token, and equal to it by the
/// type's own `==`.
pub assume_specification[ <CancellationToken as Clone>::clone ](
    token: &CancellationToken,
) -> (copy: CancellationToken)
    ensures
        copy == *token,
;

/// The receiving end of a channel, with its sending end known. Only
/// [`mailbox`] makes one.
#[verifier::reject_recursive_types(T)]
pub struct Mailbox<T> {
    rx: UnboundedReceiver<T>,
    of: Ghost<UnboundedSender<T>>,
}

impl<T> Mailbox<T> {
    /// The sending end: what is sent there is received here.
    pub closed spec fn of(self) -> UnboundedSender<T> {
        self.of@
    }

    /// The receiving end itself.
    pub closed spec fn spec_receiver(self) -> UnboundedReceiver<T> {
        self.rx
    }

    /// The receiving end itself.
    pub fn into_receiver(self) -> (r: UnboundedReceiver<T>)
        ensures
            r == self.spec_receiver(),
    {
        self.rx
    }
}

/// `tokio::sync::mpsc::unbounded_channel` makes a channel and hands out both of
/// its ends. The result says that they belong together.
#[verifier::external_body]
pub(crate) fn mailbox<T>() -> (ends: (UnboundedSender<T>, Mailbox<T>))
    ensures
        ends.1.of() == ends.0,
{
    let (tx, rx) = tokio::sync::mpsc::unbounded_channel();
    let mailbox = Mailbox { rx, of: Ghost(tx) };
    (tx, mailbox)
}

/// The awaited end of a channel for one value, with its sending end known. Only
/// [`reply_channel`] makes one.
#[verifier::reject_recursive_types(T)]
pub struct AwaitedReply<T> {
    rx: oneshot::Receiver<T>,
    of: Ghost<oneshot::Sender<T>>,
}

impl<T> AwaitedReply<T> {
    /// The sending end: what is sent there comes here.
    pub closed spec fn of(self) -> oneshot::Sender<T> {
        self.of@
    }

    /// The awaited end itself.
    pub closed spec fn spec_receiver(self) -> oneshot::Receiver<T> {
        self.rx
    }

    /// The awaited end itself.
    pub fn into_receiver(self) -> (r: oneshot::Receiver<T>)
        ensures
            r == self.spec_receiver(),
    {
        self.rx
    }
}

/// `tokio::sync::oneshot::channel` makes a channel for one value and hands out
/// both of its ends. The result says that they belong together.
#[verifier::external_body]
pub(crate) fn reply_channel<T>() -> (ends: (oneshot::Sender<T>, AwaitedReply<T>))
    ensures
        ends.1.of() == ends.0,
{
    let (tx, rx) = oneshot::channel();
    let reply = AwaitedReply { rx, of: Ghost(tx) };
    (tx, reply)
}

/// Shows that a message was handed to a channel. Only [`post`] makes one.
#[verifier::reject_recursive_types(T)]
pub struct Posted<T> {
    accepted: bool,
    to: Ghost<UnboundedSender<T>>,
    message: Ghost<T>,
}

impl<T> Posted<T> {
    /// Whether the channel took the message.
    pub closed spec fn accepted(self) -> bool {
        self.accepted
    }

    /// The channel.
    pub closed spec fn to(self) -> UnboundedSender<T> {
        self.to@
    }

    /// The message.
    pub closed spec fn message(self) -> T {
        self.message@
    }

    /// Whether the channel took the message. It does not if its receiving end
    /// is closed or gone.
    pub fn is_accepted(&self) -> (r: bool)
        ensures
            r == self.accepted(),
    {
        self.accepted
    }
}

/// `UnboundedSender::send` hands a message to a channel and never waits. Whether
/// the channel takes it depends on the receiving end. The result says whether
/// it did, and which message was handed to which channel.
#[verifier::external_body]
pub(crate) fn post<T>(tx: &UnboundedSender<T>, message: T) -> (posted: Posted<T>)
    ensures
        posted.to() == *tx,
        posted.message() == message,
{
    Posted { to: Ghost(*tx), message: Ghost(message), accepted: tx.send(message).is_ok() }
}

/// Shows that a value was handed to a channel that takes one. Only [`answer`]
/// makes one.
#[verifier::reject_recursive_types(T)]
pub struct Answered<T> {
    accepted: bool,
    to: Ghost<oneshot::Sender<T>>,
    value: Ghost<T>,
}

impl<T> Answered<T> {
    /// Whether the channel took the value.
    pub closed spec fn accepted(self) -> bool {
        self.accepted
    }

    /// The channel.
    pub closed spec fn to(self) -> oneshot::Sender<T> {
        self.to@
    }

    /// The value.
    pub closed spec fn value(self) -> T {
        self.value@
    }

    /// Whether the channel took the value. It does not if nobody waits for it
    /// any more.
    pub fn is_accepted(&self) -> (r: bool)
        ensures
            r == self.accepted(),
    {
        self.accepted
    }
}

/// `oneshot::Sender::send` hands the channel its one value and never waits.
/// Whether the channel takes it depends on the other end. The result says
/// whether it did, and which value was handed to which channel.
#[verifier::external_body]
pub(crate) fn answer<T>(tx: oneshot::Sender<T>, value: T) -> (answered: Answered<T>)
    ensures
        answered.to() == tx,
        answered.value() == value,
{
    Answered { to: Ghost(tx), value: Ghost(value), accepted: tx.send(value).is_ok() }
}

/// Shows that a token was cancelled. Only [`cancel`] makes one.
pub struct Cancelled {
    token: Ghost<CancellationToken>,
}

impl Cancelled {
    /// The token.
    pub closed spec fn token(self) -> CancellationToken {
        self.token@
    }
}

/// `CancellationToken::cancel` cancels the token for good and wakes whoever
/// waits for that. The result says which token it was.
#[verifier::external_body]
pub(crate) fn cancel(token: &CancellationToken) -> (cancelled: Cancelled)
    ensures
        cancelled.token() == *token,
{
    token.cancel();
    Cancelled { token: Ghost(*token) }
}

/// Shows what was found when a token was looked at. Only [`look_at`] makes one.
pub struct Looked {
    cancelled: bool,
    token: Ghost<CancellationToken>,
}

impl Looked {
    /// Whether the token was found cancelled.
    pub closed spec fn cancelled(self) -> bool {
        self.cancelled
    }

    /// The token.
    pub closed spec fn token(self) -> CancellationToken {
        self.token@
    }

    /// Whether the token was found cancelled.
    pub fn found_cancelled(&self) -> (r: bool)
        ensures
            r == self.cancelled(),
    {
        self.cancelled
    }
}

/// `CancellationToken::is_cancelled` says whether the token has been cancelled
/// by now, which depends on everyone who holds it. The result says what it
/// said, and of which token. A token stays cancelled: who can show that this
/// token was cancelled before finds it cancelled.
#[verifier::external_body]
pub(crate) fn look_at(token: &CancellationToken, before: Option<&Cancelled>) -> (looked: Looked)
    ensures
        looked.token() == *token,
        before matches Some(cancelled) && cancelled.token() == *token ==> looked.cancelled(),
{
    Looked { cancelled: token.is_cancelled(), token: Ghost(*token) }
}

} // verus!
