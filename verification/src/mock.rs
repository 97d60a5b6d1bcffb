//! Stand-ins for actors: they answer each type of message by a handler of their own.
use crate::actor::Addr;
use crate::external::{abort_called, abort_task, lemma_abort_called};
use crate::item::ContainerMessage;
use crate::mailbox::{queue_halves, Mailbox};
use crate::mock_life::{mock_actions_of, mock_step, MockAction, MockEvent, MockLife};
use crate::type_map::TypeMap;
use futures::future::{AbortHandle, AbortRegistration};
use std::any::TypeId;
use tokio::sync::mpsc;
use vstd::prelude::*;

verus! {

/// How many messages can wait for a mock.
pub const MOCK_CAPACITY: usize = 1;

/// Whether the handle aborts the task that runs under the registration: whether one call of
/// `futures::future::AbortHandle::new_pair` gave the two.
pub open spec fn aborts(handle: AbortHandle, registration: AbortRegistration) -> bool {
    call_ensures(AbortHandle::new_pair, (), (handle, registration))
}

/// The owner of a stand-in for an actor. The stand-in ends with it.
#[verifier::reject_recursive_types(S)]
#[verifier::reject_recursive_types(I)]
pub struct Mock<S, I> {
    tx: mpsc::Sender<ContainerMessage<S, I>>,
    abort_handle: AbortHandle,
}

impl<S, I> Mock<S, I> {
    /// The queue of the mock.
    pub closed spec fn mailbox(&self) -> mpsc::Sender<ContainerMessage<S, I>> {
        self.tx
    }

    /// The handle by which the mock's task is aborted when the mock is dropped.
    pub closed spec fn abort_handle(&self) -> AbortHandle {
        self.abort_handle
    }

    /// A mock without a handler, to be given some.
    pub fn builder<H>() -> (builder: MockBuilder<H>)
        ensures
            builder.handlers() == Map::<TypeId, H>::empty(),
    {
        MockBuilder::new()
    }

    /// The address of the mock: that of the actor it stands for.
    pub fn addr(&self) -> (addr: Addr<S, I>)
        ensures
            addr.mailbox() == self.mailbox(),
    {
        Addr::of(&self.tx)
    }
}

impl<S, I> Drop for Mock<S, I> {
    fn drop(&mut self)
        ensures
            abort_called(old(self).abort_handle()),
        opens_invariants none
        no_unwind
    {
        let ghost handle = self.abort_handle;
        abort_task(&mut self.abort_handle);
        proof {
            lemma_abort_called(handle);
        }
    }
}

/// The handlers of a mock to be.
pub struct MockBuilder<H> {
    handler_map: TypeMap<H>,
}

impl<H> MockBuilder<H> {
    /// The handlers, by the type of the message.
    pub closed spec fn handlers(&self) -> Map<TypeId, H> {
        self.handler_map@
    }

    fn new() -> (builder: Self)
        ensures
            builder.handlers() == Map::<TypeId, H>::empty(),
    {
        MockBuilder { handler_map: TypeMap::new() }
    }

    /// Gives the mock a handler for a type of message, in place of the one it may have.
    pub fn handle(self, message_type: TypeId, handler: H) -> (builder: Self)
        ensures
            builder.handlers() == self.handlers().insert(message_type, handler),
    {
        let mut handler_map = self.handler_map;
        handler_map.insert(message_type, handler);
        MockBuilder { handler_map }
    }

    /// The mock, and its task, which is to be run.
    pub fn build<S, I>(self) -> (made: (Mock<S, I>, MockTask<S, I, H>))
        ensures
            made.1.worker.handlers() == self.handlers(),
            made.1.worker.life.wf(),
            made.1.worker.life.events() == Seq::<MockEvent<S, I>>::empty(),
            made.1.worker.mailbox.sender() == made.0.mailbox(),
            made.1.worker.mailbox.capacity() == MOCK_CAPACITY,
            made.1.worker.mailbox.capacity() == 1,
            call_ensures(
                mpsc::channel::<ContainerMessage<S, I>>,
                (1,),
                (made.0.mailbox(), made.1.worker.mailbox.rx),
            ),
            !made.1.worker.mailbox.closed(),
            queue_halves(
                MOCK_CAPACITY,
                made.0.mailbox(),
                made.1.worker.mailbox.receiver(),
            ),
            aborts(made.0.abort_handle(), made.1.registration),
    {
        let (tx, mailbox) = Mailbox::open(MOCK_CAPACITY);
        let (abort_handle, registration) = AbortHandle::new_pair();
        let worker = MockWorker { mailbox, handler_map: self.handler_map, life: MockLife::new() };
        let task = MockTask { worker, registration };
        (Mock { tx, abort_handle }, task)
    }
}

/// A mock's task and the registration under which it can be aborted.
#[verifier::reject_recursive_types(S)]
#[verifier::reject_recursive_types(I)]
pub struct MockTask<S, I, H> {
    pub worker: MockWorker<S, I, H>,
    pub registration: AbortRegistration,
}

/// What a mock's task owns while it runs.
#[verifier::reject_recursive_types(S)]
#[verifier::reject_recursive_types(I)]
pub struct MockWorker<S, I, H> {
    pub mailbox: Mailbox<ContainerMessage<S, I>>,
    pub handler_map: TypeMap<H>,
    pub life: MockLife<S, I>,
}

impl<S, I, H> MockWorker<S, I, H> {
    /// The handlers, by the type of the message.
    pub open spec fn handlers(&self) -> Map<TypeId, H> {
        self.handler_map@
    }

    /// What the task does first.
    pub fn begin(&self) -> (action: MockAction<I>)
        requires
            self.life.wf(),
            self.life.events().len() == 0,
        ensures
            action == mock_actions_of(self.life.events()).last(),
            action is Receive,
    {
        MockAction::Receive
    }

    /// What the task does next, after something has happened to it.
    pub fn next(&mut self, event: MockEvent<S, I>) -> (action: MockAction<I>)
        requires
            old(self).life.wf(),
            mock_step(old(self).life.phase(), event) is Some,
        ensures
            final(self).life.wf(),
            final(self).life.events() == old(self).life.events().push(event),
            mock_step(old(self).life.phase(), event) == Some((final(self).life.phase(), action)),
            mock_actions_of(final(self).life.events()) == mock_actions_of(
                old(self).life.events(),
            ).push(action),
            final(self).mailbox == old(self).mailbox,
            final(self).handlers() == old(self).handlers(),
    {
        self.life.next(event)
    }

    /// The handler for a type of message, if there is one. What it keeps between messages stays
    /// with it.
    pub fn handler(&mut self, message_type: &TypeId) -> (handler: Option<&mut H>)
        ensures
            final(self).mailbox == old(self).mailbox,
            final(self).life == old(self).life,
            match handler {
                Some(handler) => {
                    &&& old(self).handlers().dom().contains(*message_type)
                    &&& *handler == old(self).handlers()[*message_type]
                    &&& final(self).handlers() == old(self).handlers().insert(
                        *message_type,
                        *final(handler),
                    )
                },
                None => !old(self).handlers().dom().contains(*message_type)
                    && final(self).handlers() == old(self).handlers(),
            },
    {
        self.handler_map.get_mut(message_type)
    }
}

/// A handle aborts the task under a registration when one call gave the two, and not otherwise.
pub proof fn law_handle_and_registration_are_of_one_call(
    handle: AbortHandle,
    registration: AbortRegistration,
)
    ensures
        aborts(handle, registration) <==> call_ensures(
            AbortHandle::new_pair,
            (),
            (handle, registration),
        ),
{
}

} // verus!
