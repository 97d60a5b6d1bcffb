//! Replies that arrive later: a channel for one value whose receiving half is polled for it.
use crate::channel::{channel_halves, value_given, ReplyChannel};
use std::task::{Context as TaskContext, Poll};
use tokio::sync::oneshot;
use tokio::sync::oneshot::error::RecvError;
use vstd::prelude::*;

verus! {

/// A reply to come.
#[verifier::reject_recursive_types(T)]
pub struct FutureReply<T> {
    channel: ReplyChannel<T>,
    done: bool,
    sender: Ghost<oneshot::Sender<T>>,
}

/// The one who gives the reply.
#[verifier::reject_recursive_types(T)]
pub struct FutureReplySender<T>(oneshot::Sender<T>);

/// What polling a reply gives, from what polling its channel gave: a reply whose sender went away
/// is no value.
pub open spec fn reply_output<T>(
    polled: Poll<std::result::Result<T, RecvError>>,
) -> Poll<Option<T>> {
    match polled {
        Poll::Ready(Ok(value)) => Poll::Ready(Some(value)),
        Poll::Ready(Err(_)) => Poll::Ready(None),
        Poll::Pending => Poll::Pending,
    }
}

impl<T> FutureReply<T> {
    /// Whether the reply has been polled to its end.
    pub closed spec fn finished(&self) -> bool {
        self.channel.ended()
    }

    /// The reply knows whether it has been polled to its end, and waits on the channel of its
    /// sender.
    pub closed spec fn wf(&self) -> bool {
        &&& self.done == self.channel.ended()
        &&& channel_halves(self.sender@, self.channel.receiver())
    }

    /// The sender whose value this reply waits for.
    pub closed spec fn sender(&self) -> oneshot::Sender<T> {
        self.sender@
    }

    /// The receiving half inside.
    pub closed spec fn receiver(&self) -> oneshot::Receiver<T> {
        self.channel.receiver()
    }

    /// All that polling the channel has given, in turn.
    pub closed spec fn polls(&self) -> Seq<Poll<std::result::Result<T, RecvError>>> {
        self.channel.polls()
    }

    /// Whether this is the reply that `tx` gives, on a channel of the two, and not polled yet.
    pub open spec fn awaits(&self, tx: oneshot::Sender<T>) -> bool {
        &&& channel_halves(tx, self.receiver())
        &&& self.sender() == tx
        &&& self.polls().len() == 0
        &&& !self.finished()
        &&& self.wf()
    }

    /// A channel for one value, with its sending half bare.
    pub(crate) fn pair() -> (halves: (oneshot::Sender<T>, FutureReply<T>))
        ensures
            halves.1.awaits(halves.0),
    {
        let (tx, rx) = oneshot::channel();
        let reply = FutureReply {
            channel: ReplyChannel::new(rx),
            done: false,
            sender: Ghost(tx),
        };
        (tx, reply)
    }

    /// A reply and the one who gives it.
    pub fn channel() -> (halves: (FutureReplySender<T>, FutureReply<T>))
        ensures
            halves.1.awaits(halves.0.sender()),
    {
        let (tx, reply) = FutureReply::pair();
        (FutureReplySender(tx), reply)
    }

    /// What polling a reply gives, from what polling its channel gave.
    pub fn output(polled: Poll<std::result::Result<T, RecvError>>) -> (output: Poll<Option<T>>)
        ensures
            output == reply_output(polled),
    {
        match polled {
            Poll::Ready(Ok(value)) => Poll::Ready(Some(value)),
            Poll::Ready(Err(_)) => Poll::Ready(None),
            Poll::Pending => Poll::Pending,
        }
    }

    /// Polls for the reply: the value, nothing if its sender went away without one, or pending. A
    /// value that comes is one that was given to its sender.
    pub fn poll(&mut self, cx: &mut TaskContext<'_>) -> (output: Poll<Option<T>>)
        requires
            old(self).wf(),
            !old(self).finished(),
        ensures
            final(self).wf(),
            final(self).polls().len() == old(self).polls().len() + 1,
            final(self).polls().drop_last() == old(self).polls(),
            output == reply_output(final(self).polls().last()),
            final(self).finished() == (output is Ready),
            final(self).sender() == old(self).sender(),
            final(self).receiver() == old(self).receiver(),
            output matches Poll::Ready(Some(value)) ==> value_given(
                old(self).sender(),
                value,
                Ok(()),
            ),
    {
        let polled = self.channel.poll(cx);
        let output = Self::output(polled);
        self.done = match &output {
            Poll::Ready(_) => true,
            Poll::Pending => false,
        };
        output
    }

    /// Whether the reply has been polled to its end.
    pub fn is_finished(&self) -> (finished: bool)
        requires
            self.wf(),
        ensures
            finished == self.finished(),
    {
        self.done
    }

    /// The receiving half, to wait on.
    pub fn into_receiver(self) -> (rx: oneshot::Receiver<T>)
        ensures
            rx == self.receiver(),
    {
        self.channel.into_receiver()
    }
}

impl<T> FutureReplySender<T> {
    /// The sending half inside.
    pub closed spec fn sender(&self) -> oneshot::Sender<T> {
        self.0
    }

    /// Gives the reply. The value comes back if nobody waits for it any more.
    pub fn send(self, value: T) -> (sent: std::result::Result<(), T>)
        ensures
            value_given(self.sender(), value, sent),
            sent matches Err(back) ==> back == value,
    {
        self.0.send(value)
    }
}

/// A poll of a reply gives a value exactly when its channel gave that value, nothing exactly when
/// its channel failed, and is pending exactly when its channel is.
pub proof fn law_output_follows_the_channel<T>(
    polled: Poll<std::result::Result<T, RecvError>>,
    value: T,
)
    ensures
        reply_output(polled) == Poll::Ready(Some(value)) <==> polled == Poll::Ready(
            Ok::<T, RecvError>(value),
        ),
        reply_output(polled) == Poll::Ready(None::<T>) <==> polled matches Poll::Ready(Err(_)),
        reply_output(polled) is Pending <==> polled is Pending,
{
}

/// A reply that awaits a sender waits on the channel that one call gave with that sender, and has
/// not been polled.
pub proof fn law_reply_awaits_its_own_sender<T>(reply: FutureReply<T>, tx: oneshot::Sender<T>)
    requires
        reply.awaits(tx),
    ensures
        call_ensures(oneshot::channel::<T>, (), (tx, reply.receiver())),
        reply.sender() == tx,
        reply.polls() == Seq::<Poll<std::result::Result<T, RecvError>>>::empty(),
        !reply.finished(),
        reply.wf(),
{
}

/// A reply is finished when its last poll gave a result, and not before.
pub proof fn law_finished_by_a_result<T>(reply: FutureReply<T>)
    ensures
        reply.finished() <==> reply.polls().len() > 0 && !(reply.polls().last() is Pending),
{
}

/// The channel that is polled is the one that is waited on.
proof fn lemma_one_channel<T>(reply: FutureReply<T>)
    ensures
        reply.receiver() == reply.channel.receiver(),
        reply.polls() == reply.channel.polls(),
        reply.wf() ==> reply.done == reply.finished() && call_ensures(
            oneshot::channel::<T>,
            (),
            (reply.sender(), reply.receiver()),
        ),
{
}

} // verus!
