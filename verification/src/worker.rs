//! What an actor's task owns while it runs.
use crate::channel::value_given;
use crate::item::ContainerMessage;
use crate::lifecycle::{actions_of, phase_after, possible, step, Action, Event, Phase};
use crate::mailbox::Mailbox;
use tokio::sync::oneshot;
use tokio_util::sync::CancellationToken;
use vstd::prelude::*;

verus! {

/// Where in its life a task is, and how it came there.
#[verifier::reject_recursive_types(S)]
#[verifier::reject_recursive_types(I)]
pub struct Life<S, I> {
    phase: Phase<S>,
    events: Ghost<Seq<Event<S, I>>>,
}

impl<S, I> Life<S, I> {
    /// Where in its life the task is.
    pub closed spec fn phase(&self) -> Phase<S> {
        self.phase
    }

    /// All that has happened to the task.
    pub closed spec fn events(&self) -> Seq<Event<S, I>> {
        self.events@
    }

    /// The task has come to its phase by what has happened to it.
    pub open spec fn wf(&self) -> bool {
        &&& possible(self.events())
        &&& phase_after(self.events()) == self.phase()
    }

    /// A task to which nothing has happened yet.
    pub fn new() -> (life: Self)
        ensures
            life.wf(),
            life.phase() is Starting,
            life.events() == Seq::<Event<S, I>>::empty(),
    {
        Life { phase: Phase::Starting, events: Ghost(Seq::empty()) }
    }

    /// What the task does next, after something has happened to it.
    pub fn next(&mut self, event: Event<S, I>) -> (action: Action<S, I>)
        requires
            old(self).wf(),
            step(old(self).phase(), event) is Some,
        ensures
            final(self).wf(),
            final(self).events() == old(self).events().push(event),
            step(old(self).phase(), event) == Some((final(self).phase(), action)),
            actions_of(final(self).events()) == actions_of(old(self).events()).push(action),
    {
        let mut phase = Phase::Finished;
        std::mem::swap(&mut self.phase, &mut phase);
        let ghost events = self.events@.push(event);
        assert(events.drop_last() =~= self.events@);
        self.events = Ghost(events);
        let (phase, action) = phase.next(event);
        self.phase = phase;
        action
    }
}

/// Whether the closing of the queue is among the events.
pub open spec fn closed_among<S, I>(events: Seq<Event<S, I>>) -> bool {
    exists|k: int| 0 <= k < events.len() && #[trigger] events[k] is Closed
}

/// An actor's task: the state, the token that ends the task, the queue, and where in its life the
/// task is.
#[verifier::reject_recursive_types(S)]
#[verifier::reject_recursive_types(I)]
pub struct Worker<S, I> {
    pub state: S,
    pub token: CancellationToken,
    pub mailbox: Mailbox<ContainerMessage<S, I>>,
    pub life: Life<S, I>,
}

impl<S, I> Worker<S, I> {
    /// The task has come to its phase by what has happened to it, and its queue is closed if that
    /// has happened.
    pub open spec fn wf(&self) -> bool {
        &&& self.life.wf()
        &&& closed_among(self.life.events()) ==> self.mailbox.closed()
    }

    /// What the task does first.
    pub fn begin(&self) -> (action: Action<S, I>)
        requires
            self.wf(),
            self.life.events().len() == 0,
        ensures
            action == actions_of(self.life.events()).last(),
            action is Start,
    {
        Action::Start
    }

    /// What the task does next, after something has happened to it.
    pub fn next(&mut self, event: Event<S, I>) -> (action: Action<S, I>)
        requires
            old(self).wf(),
            step(old(self).life.phase(), event) is Some,
            event is Closed ==> old(self).mailbox.closed(),
        ensures
            final(self).wf(),
            final(self).life.events() == old(self).life.events().push(event),
            step(old(self).life.phase(), event) == Some((final(self).life.phase(), action)),
            actions_of(final(self).life.events()) == actions_of(old(self).life.events()).push(
                action,
            ),
            final(self).state == old(self).state,
            final(self).token == old(self).token,
            final(self).mailbox == old(self).mailbox,
    {
        let ghost before = self.life.events();
        let action = self.life.next(event);
        proof {
            let events = self.life.events();
            if closed_among(events) && !(event is Closed) {
                let k = choose|k: int| 0 <= k < events.len() && #[trigger] events[k] is Closed;
                assert(before[k] is Closed);
            }
        }
        action
    }

    /// Closes the queue.
    pub fn close(&mut self)
        requires
            old(self).wf(),
        ensures
            final(self).wf(),
            final(self).mailbox.closed(),
            final(self).mailbox.sender() == old(self).mailbox.sender(),
            final(self).mailbox.capacity() == old(self).mailbox.capacity(),
            final(self).mailbox.receiver() == old(self).mailbox.receiver(),
            final(self).life == old(self).life,
            final(self).state == old(self).state,
            final(self).token == old(self).token,
    {
        self.mailbox.close();
    }

    /// Hands the state back to the one who asked for it, and ends the task. The state comes back
    /// if nobody waits for it any more.
    pub fn hand_back(self, tx: oneshot::Sender<S>) -> (sent: std::result::Result<(), S>)
        ensures
            value_given(tx, self.state, sent),
            sent matches Err(back) ==> back == self.state,
    {
        tx.send(self.state)
    }
}

/// A queue once closed stays closed: a task to which more has happened since its queue was closed
/// still has a closed queue. What it drains are the messages that waited, and those whose senders
/// already held a place.
pub proof fn law_closed_queue_stays_closed<S, I>(before: Worker<S, I>, after: Worker<S, I>)
    requires
        closed_among(before.life.events()),
        before.life.events().is_prefix_of(after.life.events()),
        after.wf(),
    ensures
        after.mailbox.closed(),
{
    let events = before.life.events();
    let k = choose|k: int| 0 <= k < events.len() && #[trigger] events[k] is Closed;
    assert(after.life.events().subrange(0, events.len() as int)[k] is Closed);
    assert(after.life.events()[k] is Closed);
}

/// A task to which the closing of its queue has happened, at any time, has a closed queue.
pub proof fn law_queue_is_closed_after_closing<S, I>(worker: Worker<S, I>, k: int)
    requires
        worker.wf(),
        0 <= k < worker.life.events().len(),
        worker.life.events()[k] is Closed,
    ensures
        worker.mailbox.closed(),
{
}

/// A task in order has gone through possible events to the phase that it is in, and so does what
/// those events lead to.
pub proof fn law_task_is_where_its_events_lead<S, I>(worker: Worker<S, I>)
    requires
        worker.wf(),
    ensures
        possible(worker.life.events()),
        worker.life.phase() == phase_after(worker.life.events()),
{
}

} // verus!
