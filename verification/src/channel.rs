//! The receiving half of a channel for one value, with a record of what polling it has given.
use futures::FutureExt;
use std::task::{Context as TaskContext, Poll};
use tokio::sync::oneshot;
use tokio::sync::oneshot::error::RecvError;
use vstd::prelude::*;

verus! {

/// Whether the two are the halves of one channel: what one call of `tokio::sync::oneshot::channel`
/// gave.
pub open spec fn channel_halves<T>(tx: oneshot::Sender<T>, rx: oneshot::Receiver<T>) -> bool {
    call_ensures(oneshot::channel::<T>, (), (tx, rx))
}

/// What giving a value to the sending half of a channel came to: what the call of
/// `tokio::sync::oneshot::Sender::send` with that half and that value gave.
pub open spec fn value_given<T>(
    tx: oneshot::Sender<T>,
    value: T,
    sent: std::result::Result<(), T>,
) -> bool {
    call_ensures(oneshot::Sender::<T>::send, (tx, value), sent)
}

/// The receiving half of a channel for one value.
#[verifier::reject_recursive_types(T)]
pub struct ReplyChannel<T> {
    rx: oneshot::Receiver<T>,
    polls: Ghost<Seq<Poll<std::result::Result<T, RecvError>>>>,
}

impl<T> ReplyChannel<T> {
    /// The receiving half inside.
    pub closed spec fn receiver(&self) -> oneshot::Receiver<T> {
        self.rx
    }

    /// All that polling the channel has given, in turn.
    pub closed spec fn polls(&self) -> Seq<Poll<std::result::Result<T, RecvError>>> {
        self.polls@
    }

    /// Whether polling has come to its end.
    pub open spec fn ended(&self) -> bool {
        self.polls().len() > 0 && self.polls().last() is Ready
    }

    /// A channel that has not been polled.
    pub(crate) fn new(rx: oneshot::Receiver<T>) -> (channel: Self)
        ensures
            channel.receiver() == rx,
            channel.polls().len() == 0,
    {
        ReplyChannel { rx, polls: Ghost(Seq::empty()) }
    }

    /// `poll` of `tokio::sync::oneshot::Receiver`, through `futures::FutureExt::poll_unpin`: what it
    /// gives is up to the sending task, and is added to the record of all polls. It panics once it
    /// has given a result, so a channel that has ended is not polled. A value it gives is one that
    /// was given to the sending half of the same channel by `tokio::sync::oneshot::Sender::send`,
    /// and was not given back there. It stays the half of the channel that it was.
    #[verifier::external_body]
    pub(crate) fn poll(&mut self, cx: &mut TaskContext<'_>) -> (polled: Poll<
        std::result::Result<T, RecvError>,
    >)
        requires
            !old(self).ended(),
        ensures
            final(self).polls() == old(self).polls().push(polled),
            final(self).receiver() == old(self).receiver(),
            forall|tx: oneshot::Sender<T>, value: T| #[trigger]
                channel_halves(tx, old(self).receiver()) && polled == Poll::Ready(
                    Ok::<T, RecvError>(value),
                ) ==> #[trigger] value_given(tx, value, Ok(())),
    {
        self.rx.poll_unpin(cx)
    }

    /// The receiving half, to wait on.
    pub(crate) fn into_receiver(self) -> (rx: oneshot::Receiver<T>)
        ensures
            rx == self.receiver(),
    {
        self.rx
    }
}

/// Two halves are of one channel when one call gave them, and not otherwise.
pub proof fn law_halves_are_of_one_call<T>(tx: oneshot::Sender<T>, rx: oneshot::Receiver<T>)
    ensures
        channel_halves(tx, rx) <==> call_ensures(oneshot::channel::<T>, (), (tx, rx)),
{
}

/// A value is given when the sending half was called with it, and came to what that call gave.
pub proof fn law_value_is_given_by_sending<T>(
    tx: oneshot::Sender<T>,
    value: T,
    sent: std::result::Result<(), T>,
)
    ensures
        value_given(tx, value, sent) <==> call_ensures(
            oneshot::Sender::<T>::send,
            (tx, value),
            sent,
        ),
        value_given(tx, value, sent) ==> (sent matches Err(back) ==> back == value),
{
}

/// Polling has come to its end when it has given a result, and not before.
pub proof fn law_ended_by_a_result<T>(channel: ReplyChannel<T>)
    ensures
        channel.ended() <==> channel.polls().len() > 0 && !(channel.polls().last() is Pending),
{
}

/// What is polled, and what is waited on, is the one half inside.
proof fn lemma_one_half<T>(channel: ReplyChannel<T>)
    ensures
        channel.receiver() == channel.rx,
        channel.polls() == channel.polls@,
{
}

} // verus!
