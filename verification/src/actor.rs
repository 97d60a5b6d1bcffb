//! The handles to an actor: the owner, which the actor lives with, and the addresses, by which
//! messages reach it.
use crate::call;
use crate::call::SendCall;
use crate::cancellation::{
    cancelled, cancels, child_of, law_cancels_what_descends, law_child_lives_with_its_parent,
    law_children_are_cancelled, law_siblings_are_left_alone, law_token_cancels_itself,
};
use crate::external::{cancel_called, cancel_token, lemma_cancel_called, token_lineage};
use crate::item::{ContainerMessage, Message, MsgItem, NotifyItem};
use crate::lifecycle::{
    actions_of, items_handled, items_received, law_cancellation_stops, law_items_handled_in_order,
    phase_after, possible, Event,
};
use crate::mailbox::{queue_halves, Mailbox};
use crate::reply::FutureReply;
use crate::worker::{Life, Worker};
use std::sync::Arc;
use std::time::{Duration, Instant};
use tokio::sync::{mpsc, oneshot};
use tokio_util::sync::CancellationToken;
use vstd::prelude::*;

verus! {

/// How many messages can wait for an actor.
pub const MAILBOX_CAPACITY: usize = 32;

/// A call that waits for its answer: the queue to put the item into, the item, the answer to wait
/// for after that, and how long each may take.
#[verifier::reject_recursive_types(S)]
#[verifier::reject_recursive_types(I)]
pub struct Sending<'a, S, I, M: Message> {
    pub tx: &'a mpsc::Sender<ContainerMessage<S, I>>,
    pub item: MsgItem<M>,
    pub reply: FutureReply<M::Result>,
    pub call: SendCall,
}

/// A call that waits for no answer: the queue to put the item into, the item, and how long that
/// may take.
#[verifier::reject_recursive_types(S)]
#[verifier::reject_recursive_types(I)]
pub struct Notifying<'a, S, I, M: Message> {
    pub tx: &'a mpsc::Sender<ContainerMessage<S, I>>,
    pub item: NotifyItem<M>,
    pub timeout: Option<Duration>,
}

/// A message that an actor sends to itself later: where to, what, after how long, and the token
/// under which it waits.
#[verifier::reject_recursive_types(S)]
#[verifier::reject_recursive_types(I)]
pub struct SendingLater<S, I, M: Message> {
    pub addr: Addr<S, I>,
    pub message: M,
    pub after: Duration,
    pub token: CancellationToken,
}

impl<'a, S, I, M: Message> Sending<'a, S, I, M> {
    /// The call that sends `message` into `mailbox` and waits `timeout` at most.
    pub open spec fn is_call(
        &self,
        mailbox: mpsc::Sender<ContainerMessage<S, I>>,
        message: M,
        timeout: Option<Duration>,
    ) -> bool {
        &&& *self.tx == mailbox
        &&& self.item.message == message
        &&& self.reply.awaits(self.item.tx)
        &&& self.call.begun(timeout)
    }

    fn new(
        tx: &'a mpsc::Sender<ContainerMessage<S, I>>,
        message: M,
        timeout: Option<Duration>,
    ) -> (sending: Self)
        ensures
            sending.is_call(*tx, message, timeout),
    {
        let (item, reply, call) = call::send(message, timeout);
        Sending { tx, item, reply, call }
    }
}

impl<'a, S, I, M: Message> Notifying<'a, S, I, M> {
    /// The call that sends `message` into `mailbox`, waits `timeout` at most for that, and for
    /// nothing else.
    pub open spec fn is_call(
        &self,
        mailbox: mpsc::Sender<ContainerMessage<S, I>>,
        message: M,
        timeout: Option<Duration>,
    ) -> bool {
        &&& *self.tx == mailbox
        &&& self.item.message == message
        &&& self.timeout == timeout
    }
}

/// An address of an actor. It does not keep the actor alive.
#[derive(Debug)]
#[verifier::reject_recursive_types(S)]
#[verifier::reject_recursive_types(I)]
pub struct Addr<S, I> {
    tx: mpsc::Sender<ContainerMessage<S, I>>,
}

impl<S, I> Clone for Addr<S, I> {
    fn clone(&self) -> (copy: Self)
        ensures
            copy == *self,
    {
        Addr { tx: self.tx.clone() }
    }
}

impl<S, I> Addr<S, I> {
    /// The queue that the address leads to.
    pub closed spec fn mailbox(&self) -> mpsc::Sender<ContainerMessage<S, I>> {
        self.tx
    }

    /// The address of the actor that takes its messages out of a queue.
    pub(crate) fn of(tx: &mpsc::Sender<ContainerMessage<S, I>>) -> (addr: Addr<S, I>)
        ensures
            addr.mailbox() == *tx,
    {
        Addr { tx: tx.clone() }
    }

    /// The address as that of one who takes a kind of message.
    pub fn recipient(self) -> (recipient: Recipient<Addr<S, I>>)
        ensures
            *recipient.tx == self,
    {
        Recipient { tx: Arc::new(self) }
    }

    /// Sends a message to the actor and waits for the result.
    pub fn send<M: Message>(&self, message: M) -> (sending: Sending<'_, S, I, M>)
        ensures
            sending.is_call(self.mailbox(), message, None),
    {
        Sending::new(&self.tx, message, None)
    }

    /// Sends a message to the actor and waits for the result, but only for a limited time.
    pub fn send_timeout<M: Message>(
        &self,
        timeout: Duration,
        message: M,
    ) -> (sending: Sending<'_, S, I, M>)
        ensures
            sending.is_call(self.mailbox(), message, Some(timeout)),
    {
        Sending::new(&self.tx, message, Some(timeout))
    }

    /// Sends a message to the actor without waiting for the result.
    pub fn notify<M: Message<Result = ()>>(
        &self,
        message: M,
    ) -> (notifying: Notifying<'_, S, I, M>)
        ensures
            notifying.is_call(self.mailbox(), message, None),
    {
        Notifying { tx: &self.tx, item: call::notify(message), timeout: None }
    }

    /// Sends a message to the actor without waiting for the result, but only for a limited time.
    pub fn notify_timeout<M: Message<Result = ()>>(
        &self,
        timeout: Duration,
        message: M,
    ) -> (notifying: Notifying<'_, S, I, M>)
        ensures
            notifying.is_call(self.mailbox(), message, Some(timeout)),
    {
        Notifying { tx: &self.tx, item: call::notify(message), timeout: Some(timeout) }
    }
}

/// One who takes a kind of message, whoever that is.
pub struct Recipient<T: ?Sized> {
    pub tx: Arc<T>,
}

impl<T: ?Sized> Clone for Recipient<T> {
    fn clone(&self) -> (copy: Self)
        ensures
            copy == *self,
    {
        Recipient { tx: self.tx.clone() }
    }
}

impl<S, I> Recipient<Addr<S, I>> {
    /// Sends a message and waits for the result.
    pub fn send<M: Message>(&self, message: M) -> (sending: Sending<'_, S, I, M>)
        ensures
            sending.is_call(self.tx.mailbox(), message, None),
    {
        self.tx.send(message)
    }

    /// Sends a message and waits for the result, but only for a limited time.
    pub fn send_timeout<M: Message>(
        &self,
        timeout: Duration,
        message: M,
    ) -> (sending: Sending<'_, S, I, M>)
        ensures
            sending.is_call(self.tx.mailbox(), message, Some(timeout)),
    {
        self.tx.send_timeout(timeout, message)
    }
}

/// What the handlers of an actor see of it.
#[verifier::reject_recursive_types(S)]
#[verifier::reject_recursive_types(I)]
pub struct Context<S, I> {
    tx: mpsc::Sender<ContainerMessage<S, I>>,
    token: CancellationToken,
}

impl<S, I> Context<S, I> {
    /// The queue of the actor.
    pub closed spec fn mailbox(&self) -> mpsc::Sender<ContainerMessage<S, I>> {
        self.tx
    }

    /// The token that is cancelled when the context is dropped.
    pub closed spec fn token(&self) -> CancellationToken {
        self.token
    }

    /// The address of the actor itself.
    pub fn addr(&self) -> (addr: Addr<S, I>)
        ensures
            addr.mailbox() == self.mailbox(),
    {
        Addr { tx: self.tx.clone() }
    }

    /// The token under which a future runs that is spawned into the context. All futures spawned
    /// into the container are cancelled if the container is dropped.
    pub fn spawn(&self) -> (token: CancellationToken)
        ensures
            child_of(token, self.token()),
            call_ensures(CancellationToken::child_token, (&self.token(),), token),
    {
        self.token.child_token()
    }

    /// Sends the message to the actor itself after a specified period of time.
    pub fn send_later<M: Message<Result = ()>>(
        &self,
        message: M,
        after: Duration,
    ) -> (later: SendingLater<S, I, M>)
        ensures
            later.addr.mailbox() == self.mailbox(),
            later.message == message,
            later.after == after,
            child_of(later.token, self.token()),
            call_ensures(CancellationToken::child_token, (&self.token(),), later.token),
    {
        SendingLater { addr: self.addr(), message, after, token: self.spawn() }
    }
}

impl<S, I> Drop for Context<S, I> {
    fn drop(&mut self)
        ensures
            cancel_called(old(self).token()),
        opens_invariants none
        no_unwind
    {
        let ghost token = self.token;
        cancel_token(&mut self.token);
        proof {
            lemma_cancel_called(token);
        }
    }
}

/// The owner of an actor. The actor, and all that is spawned into it, ends with its owner.
#[derive(Debug)]
#[verifier::reject_recursive_types(S)]
#[verifier::reject_recursive_types(I)]
pub struct Owner<S, I> {
    tx: mpsc::Sender<ContainerMessage<S, I>>,
    token: CancellationToken,
}

impl<S, I> Owner<S, I> {
    /// The queue of the actor.
    pub closed spec fn mailbox(&self) -> mpsc::Sender<ContainerMessage<S, I>> {
        self.tx
    }

    /// The token that is cancelled when the owner is dropped.
    pub closed spec fn token(&self) -> CancellationToken {
        self.token
    }

    /// An actor with its first state: its owner, what its handlers see of it, and its task, which
    /// is to be run.
    pub fn new(initial_state: S) -> (made: (Owner<S, I>, Context<S, I>, Worker<S, I>))
        ensures
            token_lineage(made.0.token()).len() == 1,
            made.1.mailbox() == made.0.mailbox(),
            call_ensures(CancellationToken::new, (), made.0.token()),
            child_of(made.1.token(), made.0.token()),
            call_ensures(CancellationToken::child_token, (&made.0.token(),), made.1.token()),
            made.2.wf(),
            made.2.life.events() == Seq::<Event<S, I>>::empty(),
            made.2.state == initial_state,
            queue_halves(MAILBOX_CAPACITY, made.0.mailbox(), made.2.mailbox.receiver()),
            made.2.mailbox.sender() == made.0.mailbox(),
            made.2.mailbox.capacity() == MAILBOX_CAPACITY,
            made.2.mailbox.capacity() == 32,
            call_ensures(
                mpsc::channel::<ContainerMessage<S, I>>,
                (32,),
                (made.0.mailbox(), made.2.mailbox.rx),
            ),
            !made.2.mailbox.closed(),
            child_of(made.2.token, made.0.token()),
            call_ensures(CancellationToken::child_token, (&made.0.token(),), made.2.token),
    {
        let token = CancellationToken::new();
        let (tx, mailbox) = Mailbox::open(MAILBOX_CAPACITY);
        let ctx = Context { tx: tx.clone(), token: token.child_token() };
        let worker = Worker {
            state: initial_state,
            token: token.child_token(),
            mailbox,
            life: Life::new(),
        };
        (Owner { tx, token }, ctx, worker)
    }

    /// The address of the actor.
    pub fn addr(&self) -> (addr: Addr<S, I>)
        ensures
            addr.mailbox() == self.mailbox(),
    {
        Addr { tx: self.tx.clone() }
    }

    /// Sends a message to the actor and waits for the result.
    pub fn send<M: Message>(&self, message: M) -> (sending: Sending<'_, S, I, M>)
        ensures
            sending.is_call(self.mailbox(), message, None),
    {
        Sending::new(&self.tx, message, None)
    }

    /// Sends a message to the actor and waits for the result, but only for a limited time.
    pub fn send_timeout<M: Message>(
        &self,
        timeout: Duration,
        message: M,
    ) -> (sending: Sending<'_, S, I, M>)
        ensures
            sending.is_call(self.mailbox(), message, Some(timeout)),
    {
        Sending::new(&self.tx, message, Some(timeout))
    }

    /// Sends a message to the actor without waiting for the result.
    pub fn notify<M: Message<Result = ()>>(
        &self,
        message: M,
    ) -> (notifying: Notifying<'_, S, I, M>)
        ensures
            notifying.is_call(self.mailbox(), message, None),
    {
        Notifying { tx: &self.tx, item: call::notify(message), timeout: None }
    }

    /// Sends a message to the actor without waiting for the result, but only for a limited time.
    pub fn notify_timeout<M: Message<Result = ()>>(
        &self,
        timeout: Duration,
        message: M,
    ) -> (notifying: Notifying<'_, S, I, M>)
        ensures
            notifying.is_call(self.mailbox(), message, Some(timeout)),
    {
        Notifying { tx: &self.tx, item: call::notify(message), timeout: Some(timeout) }
    }

    /// The token under which a future runs that is spawned into the container. All futures
    /// spawned into the container are cancelled if the container is dropped.
    pub fn spawn(&self) -> (token: CancellationToken)
        ensures
            child_of(token, self.token()),
            call_ensures(CancellationToken::child_token, (&self.token(),), token),
    {
        self.token.child_token()
    }

    /// Asks the actor to end and hand its state back: the queue to put the request into, the
    /// request, and the state to wait for after that. It takes the owner for good: what is left of
    /// it is to be kept until the state has come, and cannot ask again.
    pub fn shutdown(self) -> (asking: Asking<S, I>)
        ensures
            asking.owner.owner() == self,
            asking.tx == self.mailbox(),
            asking.request == ContainerMessage::<S, I>::Terminate(asking.state.sender()),
            asking.state.awaits(asking.state.sender()),
    {
        let (tx, state) = FutureReply::pair();
        let queue = self.tx.clone();
        Asking { owner: AskedOwner { owner: self }, tx: queue, request: ContainerMessage::Terminate(tx), state }
    }
}

/// The owner of an actor that has been asked to end. It can only be kept, or dropped.
#[verifier::reject_recursive_types(S)]
#[verifier::reject_recursive_types(I)]
pub struct AskedOwner<S, I> {
    owner: Owner<S, I>,
}

impl<S, I> AskedOwner<S, I> {
    /// The owner inside.
    pub closed spec fn owner(&self) -> Owner<S, I> {
        self.owner
    }
}

/// A request to an actor to end and hand its state back.
#[verifier::reject_recursive_types(S)]
#[verifier::reject_recursive_types(I)]
pub struct Asking<S, I> {
    pub owner: AskedOwner<S, I>,
    pub tx: mpsc::Sender<ContainerMessage<S, I>>,
    pub request: ContainerMessage<S, I>,
    pub state: FutureReply<S>,
}

impl<S, I> Drop for Owner<S, I> {
    fn drop(&mut self)
        ensures
            cancel_called(old(self).token()),
        opens_invariants none
        no_unwind
    {
        let ghost token = self.token;
        cancel_token(&mut self.token);
        proof {
            lemma_cancel_called(token);
        }
    }
}

/// The token that the owner of an actor cancels when it is dropped cancels the actor's task, its
/// context, and every task spawned into either. So they are cancelled once it has been dropped.
pub proof fn law_owner_cancels_all<S, I>(
    owner: Owner<S, I>,
    ctx: Context<S, I>,
    worker: Worker<S, I>,
    task: CancellationToken,
)
    requires
        child_of(ctx.token(), owner.token()),
        child_of(worker.token, owner.token()),
        child_of(task, owner.token()) || child_of(task, ctx.token()),
    ensures
        cancels(owner.token(), worker.token),
        cancels(owner.token(), ctx.token()),
        cancels(owner.token(), task),
        cancel_called(owner.token()) ==> {
            &&& cancelled(worker.token)
            &&& cancelled(ctx.token())
            &&& cancelled(task)
        },
{
    law_token_cancels_itself(owner.token());
    law_children_are_cancelled(owner.token(), owner.token(), worker.token);
    law_children_are_cancelled(owner.token(), owner.token(), ctx.token());
    if child_of(task, owner.token()) {
        law_children_are_cancelled(owner.token(), owner.token(), task);
    } else {
        law_children_are_cancelled(owner.token(), ctx.token(), task);
    }
}

/// The token that a context cancels when it is dropped cancels every task spawned into the context,
/// a message to be sent later among them, and not the owner. So those tasks are cancelled once the
/// context has been dropped, which happens at the end of the actor's task.
pub proof fn law_context_cancels_its_tasks<S, I>(
    owner: Owner<S, I>,
    ctx: Context<S, I>,
    task: CancellationToken,
)
    requires
        child_of(ctx.token(), owner.token()),
        child_of(task, ctx.token()),
    ensures
        cancels(ctx.token(), task),
        !cancels(ctx.token(), owner.token()),
        cancel_called(ctx.token()) ==> cancelled(task),
{
    law_token_cancels_itself(ctx.token());
    law_token_cancels_itself(owner.token());
    law_children_are_cancelled(ctx.token(), ctx.token(), task);
    law_children_are_cancelled(owner.token(), owner.token(), ctx.token());
}

/// A context that is dropped leaves alone what was spawned into the owner: the token that it cancels
/// does not cancel a task spawned into the owner under a token other than the context's own.
pub proof fn law_context_leaves_the_owners_tasks<S, I>(
    owner: Owner<S, I>,
    ctx: Context<S, I>,
    task: CancellationToken,
)
    requires
        child_of(ctx.token(), owner.token()),
        child_of(task, owner.token()),
        token_lineage(task) != token_lineage(ctx.token()),
    ensures
        !cancels(ctx.token(), task),
        !cancels(ctx.token(), owner.token()),
{
    law_token_cancels_itself(task);
    law_token_cancels_itself(owner.token());
    law_siblings_are_left_alone(owner.token(), ctx.token(), task, task);
    law_children_are_cancelled(owner.token(), owner.token(), ctx.token());
}

/// An actor whose owner has been dropped handles nothing more: if the task waits for what comes
/// next, and the cancellation goes first, the actor is stopped. Nothing comes out of its queue any
/// more, so no item that was sent after the drop is ever handled.
pub proof fn law_dropped_owner_ends_its_actor<S, I>(
    owner: Owner<S, I>,
    worker: Worker<S, I>,
    events: Seq<Event<S, I>>,
    later: Seq<Event<S, I>>,
    item: I,
)
    requires
        child_of(worker.token, owner.token()),
        cancel_called(owner.token()),
        possible(later),
        events.is_prefix_of(later),
        phase_after(events) is Selecting,
        cancelled(worker.token) && later.len() > events.len() ==> later[events.len() as int] is Cancelled,
        !items_received(events).contains(item),
    ensures
        later == events || later == events.push(Event::Cancelled),
        items_handled(actions_of(later)) == items_received(events),
        !items_handled(actions_of(later)).contains(item),
{
    law_token_cancels_itself(owner.token());
    law_children_are_cancelled(owner.token(), owner.token(), worker.token);
    assert(cancelled(worker.token));
    let n = events.len() as int;
    assert(later.subrange(0, n) =~= events);
    law_items_handled_in_order(later);
    if later.len() > n {
        law_cancellation_stops(later, n);
        assert(later =~= events.push(Event::Cancelled));
        assert(later.drop_last() =~= events);
    } else {
        assert(later =~= events);
    }
}

/// A call that waits for its answer puts the caller's message into the actor's queue, with the
/// sending half of the very channel on which the answer is waited for, under the caller's limit.
pub proof fn law_sending_is_the_call_asked_for<'a, S, I, M: Message>(
    sending: Sending<'a, S, I, M>,
    mailbox: mpsc::Sender<ContainerMessage<S, I>>,
    message: M,
    timeout: Option<Duration>,
)
    requires
        sending.is_call(mailbox, message, timeout),
    ensures
        *sending.tx == mailbox,
        sending.item.message == message,
        call_ensures(
            oneshot::channel::<M::Result>,
            (),
            (sending.item.tx, sending.reply.receiver()),
        ),
        sending.reply.sender() == sending.item.tx,
        sending.reply.polls().len() == 0,
        sending.call.timeout() == timeout,
        timeout is None ==> sending.call.began() is None,
        timeout is Some ==> sending.call.began() is Some && call_ensures(
            Instant::now,
            (),
            sending.call.began()->0,
        ),
{
}

/// A call that waits for no answer puts the caller's message into the actor's queue, under the
/// caller's limit.
pub proof fn law_notifying_is_the_call_asked_for<'a, S, I, M: Message>(
    notifying: Notifying<'a, S, I, M>,
    mailbox: mpsc::Sender<ContainerMessage<S, I>>,
    message: M,
    timeout: Option<Duration>,
)
    requires
        notifying.is_call(mailbox, message, timeout),
    ensures
        *notifying.tx == mailbox,
        notifying.item.message == message,
        notifying.timeout == timeout,
{
}

/// What is spawned into an actor, a message to be sent later among it, lives as long as its owner and
/// its context: while neither of those has been dropped, so that no call has cancelled a token of
/// their places in the tree or of its own, its token is not cancelled, and nor is the task's.
pub proof fn law_spawned_lives_with_its_actor<S, I>(
    owner: Owner<S, I>,
    ctx: Context<S, I>,
    worker: Worker<S, I>,
    task: CancellationToken,
)
    requires
        token_lineage(owner.token()).len() == 1,
        child_of(ctx.token(), owner.token()),
        child_of(worker.token, owner.token()),
        child_of(task, owner.token()) || child_of(task, ctx.token()),
        forall|by: CancellationToken| #[trigger]
            cancel_called(by) ==> {
                &&& token_lineage(by).len() > 0
                &&& token_lineage(by) != token_lineage(owner.token())
                &&& token_lineage(by) != token_lineage(ctx.token())
                &&& token_lineage(by) != token_lineage(worker.token)
                &&& token_lineage(by) != token_lineage(task)
            },
    ensures
        !cancelled(owner.token()),
        !cancelled(ctx.token()),
        !cancelled(worker.token),
        !cancelled(task),
{
    if cancelled(owner.token()) {
        let by = choose|by: CancellationToken|
            cancel_called(by) && #[trigger] cancels(by, owner.token());
        law_cancels_what_descends(by, owner.token());
        assert(token_lineage(by) =~= token_lineage(owner.token()));
    }
    law_child_lives_with_its_parent(ctx.token(), owner.token());
    law_child_lives_with_its_parent(worker.token, owner.token());
    if child_of(task, owner.token()) {
        law_child_lives_with_its_parent(task, owner.token());
    } else {
        law_child_lives_with_its_parent(task, ctx.token());
    }
}

} // verus!
