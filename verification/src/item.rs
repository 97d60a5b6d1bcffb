//! Messages, and the items in which they travel to an actor.
use crate::channel::value_given;
use crate::reply::FutureReply;
use tokio::sync::oneshot;
use vstd::prelude::*;

verus! {

/// What can be sent to an actor, with the type of the answer.
pub trait Message: Send + 'static {
    type Result: Send + 'static;
}

/// What waits in an actor's queue: an item to handle, or the request to hand the state back.
#[verifier::reject_recursive_types(S)]
pub enum ContainerMessage<S, I> {
    Item(I),
    Terminate(oneshot::Sender<S>),
}

/// A message whose sender waits for the answer.
pub struct MsgItem<M: Message> {
    pub message: M,
    pub tx: oneshot::Sender<M::Result>,
}

/// A message whose sender waits for nothing.
pub struct NotifyItem<M: Message> {
    pub message: M,
}

/// A message taken out of its item, with the way back for its answer if one is awaited.
pub struct MockMessage<M: Message> {
    pub message: M,
    pub tx: Option<oneshot::Sender<M::Result>>,
}

/// What opening an item gives, and what it leaves in it.
pub open spec fn opening<M: Message>(contents: Option<MockMessage<M>>) -> (
    Option<MockMessage<M>>,
    Option<MockMessage<M>>,
) {
    (contents, None)
}

/// What opening an item so many times gives, in turn.
pub open spec fn openings<M: Message>(contents: Option<MockMessage<M>>, times: nat) -> Seq<
    Option<MockMessage<M>>,
>
    decreases times,
{
    if times == 0 {
        Seq::empty()
    } else {
        let (opened, left) = opening(contents);
        seq![opened] + openings(left, (times - 1) as nat)
    }
}

/// An item gives its message out once: the first opening gives what is in it, and every further one
/// gives nothing. So a message is handled once, however often its item is.
pub proof fn law_item_opens_once<M: Message>(contents: Option<MockMessage<M>>, times: nat)
    ensures
        openings(contents, times).len() == times,
        times > 0 ==> openings(contents, times)[0] == contents,
        forall|i: int| 0 < i < times ==> #[trigger] openings(contents, times)[i] is None,
    decreases times,
{
    if times > 0 {
        let rest = (times - 1) as nat;
        law_item_opens_once::<M>(None, rest);
        assert forall|i: int| 0 < i < times implies #[trigger] openings(contents, times)[i] is None by {
            assert(openings(contents, times)[i] == openings::<M>(None, rest)[i - 1]);
        }
    }
}

/// An item that gives its message out once.
pub trait ItemObj<M: Message> {
    /// What has not been taken out yet.
    spec fn contents(&self) -> Option<MockMessage<M>>;

    /// Takes the message out, if that has not been done yet. An item that has been opened gives
    /// nothing when it is opened again.
    fn open(&mut self) -> (opened: Option<MockMessage<M>>)
        ensures
            (opened, final(self).contents()) == opening(old(self).contents()),
            opened == old(self).contents(),
            final(self).contents() is None,
    ;

    /// Takes the message out of an item that still holds it.
    fn as_mock_message(&mut self) -> (opened: MockMessage<M>)
        requires
            old(self).contents() is Some,
        ensures
            old(self).contents() == Some(opened),
            final(self).contents() is None,
    ;
}

impl<M: Message> ItemObj<M> for Option<MsgItem<M>> {
    open spec fn contents(&self) -> Option<MockMessage<M>> {
        match *self {
            Some(item) => Some(MockMessage { message: item.message, tx: Some(item.tx) }),
            None => None,
        }
    }

    fn open(&mut self) -> (opened: Option<MockMessage<M>>) {
        match self.take() {
            Some(MsgItem { message, tx }) => Some(MockMessage { message, tx: Some(tx) }),
            None => None,
        }
    }

    fn as_mock_message(&mut self) -> (opened: MockMessage<M>) {
        let MsgItem { message, tx } = self.take().unwrap();
        MockMessage { message, tx: Some(tx) }
    }
}

impl<M: Message> ItemObj<M> for Option<NotifyItem<M>> {
    open spec fn contents(&self) -> Option<MockMessage<M>> {
        match *self {
            Some(item) => Some(MockMessage { message: item.message, tx: None }),
            None => None,
        }
    }

    fn open(&mut self) -> (opened: Option<MockMessage<M>>) {
        match self.take() {
            Some(NotifyItem { message }) => Some(MockMessage { message, tx: None }),
            None => None,
        }
    }

    fn as_mock_message(&mut self) -> (opened: MockMessage<M>) {
        let NotifyItem { message } = self.take().unwrap();
        MockMessage { message, tx: None }
    }
}

impl<M: Message> MsgItem<M> {
    /// The item for a message, and the answer to it that its sender waits for.
    pub fn new(message: M) -> (made: (MsgItem<M>, FutureReply<M::Result>))
        ensures
            made.0.message == message,
            made.1.awaits(made.0.tx),
    {
        let (tx, reply) = FutureReply::pair();
        (MsgItem { message, tx }, reply)
    }
}

/// Opening an item whose sender waits for an answer gives that very message with that very way back,
/// and leaves nothing in it.
pub proof fn law_opened_item_gives_its_message<M: Message>(item: MsgItem<M>)
    ensures
        opening::<M>(Some(item).contents()) == (
            Some(MockMessage { message: item.message, tx: Some(item.tx) }),
            None::<MockMessage<M>>,
        ),
        Some(item).contents() == Some(MockMessage { message: item.message, tx: Some(item.tx) }),
        None::<MsgItem<M>>.contents() == None::<MockMessage<M>>,
        opening::<M>(None) == (None::<MockMessage<M>>, None::<MockMessage<M>>),
{
}

/// Opening an item whose sender waits for nothing gives that very message with no way back, and
/// leaves nothing in it.
pub proof fn law_opened_notification_gives_its_message<M: Message>(item: NotifyItem<M>)
    ensures
        opening::<M>(Some(item).contents()) == (
            Some(MockMessage { message: item.message, tx: None }),
            None::<MockMessage<M>>,
        ),
        Some(item).contents() == Some(MockMessage::<M> { message: item.message, tx: None }),
        None::<NotifyItem<M>>.contents() == None::<MockMessage<M>>,
{
}

/// An item holds nothing when it is empty, and only then; and two items that hold the same hold one
/// message.
pub proof fn law_item_holds_its_message_until_opened<M: Message>(
    sent: Option<MsgItem<M>>,
    other: Option<MsgItem<M>>,
    notified: Option<NotifyItem<M>>,
)
    ensures
        sent.contents() is None <==> sent is None,
        notified.contents() is None <==> notified is None,
        sent.contents() == other.contents() <==> sent == other,
        sent is Some && notified is Some ==> {
            sent.contents()->0.message == notified.contents()->0.message
                <==> sent->0.message == notified->0.message
        },
{
}

/// Gives the answer to a message, if one is awaited. It comes back if nobody waits for it any
/// more.
pub fn answer<R>(tx: Option<oneshot::Sender<R>>, result: R) -> (sent: Option<
    std::result::Result<(), R>,
>)
    ensures
        sent is Some <==> tx is Some,
        tx matches Some(sender) ==> value_given(sender, result, sent->0),
        sent matches Some(Err(back)) ==> back == result,
{
    match tx {
        Some(tx) => Some(tx.send(result)),
        None => None,
    }
}

} // verus!
