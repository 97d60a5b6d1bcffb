//! The life of an actor's task: what it does next after each thing that happens to it.
//!
//! The task starts the actor, then waits for its cancellation or the next message. Each item is
//! handled to its end before the task waits again. Cancellation stops the actor. A request to
//! terminate closes the queue; what still waits in it is handled, and the state is handed back.
use crate::item::ContainerMessage;
use tokio::sync::oneshot;
use vstd::pervasive::unreached;
use vstd::prelude::*;

verus! {

/// Where in its life an actor's task is.
#[verifier::reject_recursive_types(S)]
pub enum Phase<S> {
    /// The actor is being started.
    Starting,
    /// The task waits for its cancellation or the next message.
    Selecting,
    /// An item is being handled.
    Handling,
    /// The queue is being closed; the state is owed to the sender.
    Closing(oneshot::Sender<S>),
    /// The task takes what still waits out of the closed queue.
    Draining(oneshot::Sender<S>),
    /// An item out of the closed queue is being handled.
    DrainHandling(oneshot::Sender<S>),
    /// The task waits for nothing any more.
    Finished,
}

/// What happens to an actor's task.
#[verifier::reject_recursive_types(S)]
pub enum Event<S, I> {
    /// The actor has been started.
    Started,
    /// The task's token is cancelled.
    Cancelled,
    /// A message has come out of the queue.
    Received(ContainerMessage<S, I>),
    /// The item has been handled.
    Handled,
    /// The queue has been closed.
    Closed,
    /// A message has come out of the closed queue, or nothing is left in it.
    Drained(Option<ContainerMessage<S, I>>),
}

/// What an actor's task does next.
#[verifier::reject_recursive_types(S)]
pub enum Action<S, I> {
    /// Start the actor.
    Start,
    /// Wait for the cancellation or the next message, whichever comes first; the cancellation goes
    /// first if both are there.
    Select,
    /// Handle the item.
    Handle(I),
    /// Stop the actor, and end.
    Stop,
    /// Close the queue.
    Close,
    /// Wait for the next message out of the closed queue.
    Drain,
    /// Hand the state back, and end.
    Reply(oneshot::Sender<S>),
}

/// The phase and the action that follow an event, where the event can happen in the phase.
pub open spec fn step<S, I>(phase: Phase<S>, event: Event<S, I>) -> Option<
    (Phase<S>, Action<S, I>),
> {
    match (phase, event) {
        (Phase::Starting, Event::Started) => Some((Phase::Selecting, Action::Select)),
        (Phase::Selecting, Event::Cancelled) => Some((Phase::Finished, Action::Stop)),
        (Phase::Selecting, Event::Received(ContainerMessage::Item(item))) => Some(
            (Phase::Handling, Action::Handle(item)),
        ),
        (Phase::Selecting, Event::Received(ContainerMessage::Terminate(tx))) => Some(
            (Phase::Closing(tx), Action::Close),
        ),
        (Phase::Handling, Event::Handled) => Some((Phase::Selecting, Action::Select)),
        (Phase::Closing(tx), Event::Closed) => Some((Phase::Draining(tx), Action::Drain)),
        (Phase::Draining(tx), Event::Drained(Some(ContainerMessage::Item(item)))) => Some(
            (Phase::DrainHandling(tx), Action::Handle(item)),
        ),
        (Phase::Draining(tx), Event::Drained(None)) => Some((Phase::Finished, Action::Reply(tx))),
        (Phase::DrainHandling(tx), Event::Handled) => Some((Phase::Draining(tx), Action::Drain)),
        _ => None,
    }
}

impl<S> Phase<S> {
    /// The phase and the action that follow an event.
    pub fn next<I>(self, event: Event<S, I>) -> (next: (Phase<S>, Action<S, I>))
        requires
            step(self, event) is Some,
        ensures
            step(self, event) == Some(next),
    {
        match (self, event) {
            (Phase::Starting, Event::Started) => (Phase::Selecting, Action::Select),
            (Phase::Selecting, Event::Cancelled) => (Phase::Finished, Action::Stop),
            (Phase::Selecting, Event::Received(ContainerMessage::Item(item))) => {
                (Phase::Handling, Action::Handle(item))
            },
            (Phase::Selecting, Event::Received(ContainerMessage::Terminate(tx))) => {
                (Phase::Closing(tx), Action::Close)
            },
            (Phase::Handling, Event::Handled) => (Phase::Selecting, Action::Select),
            (Phase::Closing(tx), Event::Closed) => (Phase::Draining(tx), Action::Drain),
            (Phase::Draining(tx), Event::Drained(Some(ContainerMessage::Item(item)))) => {
                (Phase::DrainHandling(tx), Action::Handle(item))
            },
            (Phase::Draining(tx), Event::Drained(None)) => (Phase::Finished, Action::Reply(tx)),
            (Phase::DrainHandling(tx), Event::Handled) => (Phase::Draining(tx), Action::Drain),
            _ => unreached(),
        }
    }
}

/// The phase after a sequence of events, and all that was done, from the start of the actor on;
/// nothing if one of the events could not happen when it did.
pub open spec fn run<S, I>(events: Seq<Event<S, I>>) -> Option<(Phase<S>, Seq<Action<S, I>>)>
    decreases events.len(),
{
    if events.len() == 0 {
        Some((Phase::Starting, seq![Action::Start]))
    } else {
        match run(events.drop_last()) {
            Some((phase, actions)) => match step(phase, events.last()) {
                Some((next, action)) => Some((next, actions.push(action))),
                None => None,
            },
            None => None,
        }
    }
}

/// Whether the events can happen to a task, one after the other.
pub open spec fn possible<S, I>(events: Seq<Event<S, I>>) -> bool {
    run(events) is Some
}

/// The phase that the events lead to.
pub open spec fn phase_after<S, I>(events: Seq<Event<S, I>>) -> Phase<S> {
    run(events).unwrap().0
}

/// All that the task does, from the start of the actor to what follows the last event.
pub open spec fn actions_of<S, I>(events: Seq<Event<S, I>>) -> Seq<Action<S, I>> {
    run(events).unwrap().1
}

/// The items that came out of the queue, in the order in which they came.
pub open spec fn items_received<S, I>(events: Seq<Event<S, I>>) -> Seq<I>
    decreases events.len(),
{
    if events.len() == 0 {
        Seq::empty()
    } else {
        let before = items_received(events.drop_last());
        match events.last() {
            Event::Received(ContainerMessage::Item(item)) => before.push(item),
            Event::Drained(Some(ContainerMessage::Item(item))) => before.push(item),
            _ => before,
        }
    }
}

/// The items that were handled, in the order in which they were.
pub open spec fn items_handled<S, I>(actions: Seq<Action<S, I>>) -> Seq<I>
    decreases actions.len(),
{
    if actions.len() == 0 {
        Seq::empty()
    } else {
        let before = items_handled(actions.drop_last());
        match actions.last() {
            Action::Handle(item) => before.push(item),
            _ => before,
        }
    }
}

/// The actor's state after what was done, where `handler` gives the state after an item from the
/// one before it.
pub open spec fn state_after<S, I>(
    handler: spec_fn(S, I) -> S,
    initial: S,
    actions: Seq<Action<S, I>>,
) -> S
    decreases actions.len(),
{
    if actions.len() == 0 {
        initial
    } else {
        let before = state_after(handler, initial, actions.drop_last());
        match actions.last() {
            Action::Handle(item) => handler(before, item),
            _ => before,
        }
    }
}

/// The messages that came out of the queue, in the order in which they came.
pub open spec fn messages_received<S, I>(events: Seq<Event<S, I>>) -> Seq<ContainerMessage<S, I>>
    decreases events.len(),
{
    if events.len() == 0 {
        Seq::empty()
    } else {
        let before = messages_received(events.drop_last());
        match events.last() {
            Event::Received(message) => before.push(message),
            Event::Drained(Some(message)) => before.push(message),
            _ => before,
        }
    }
}

/// The items among messages.
pub open spec fn items_among<S, I>(messages: Seq<ContainerMessage<S, I>>) -> Seq<I>
    decreases messages.len(),
{
    if messages.len() == 0 {
        Seq::empty()
    } else {
        let before = items_among(messages.drop_last());
        match messages.last() {
            ContainerMessage::Item(item) => before.push(item),
            ContainerMessage::Terminate(_) => before,
        }
    }
}

/// Whether doing `action` ends in `event`.
pub open spec fn ends_in<S, I>(action: Action<S, I>, event: Event<S, I>) -> bool {
    match action {
        Action::Start => event is Started,
        Action::Select => event is Cancelled || event is Received,
        Action::Handle(_) => event is Handled,
        Action::Close => event is Closed,
        Action::Drain => event matches Event::Drained(message) && !(message matches Some(
            ContainerMessage::Terminate(_),
        )),
        Action::Stop | Action::Reply(_) => false,
    }
}

/// What the last action says of the phase.
spec fn phase_follows<S, I>(phase: Phase<S>, last: Action<S, I>) -> bool {
    match last {
        Action::Start => phase is Starting,
        Action::Select => phase is Selecting,
        Action::Handle(_) => phase is Handling || phase is DrainHandling,
        Action::Stop => phase is Finished,
        Action::Close => phase is Closing,
        Action::Drain => phase is Draining,
        Action::Reply(_) => phase is Finished,
    }
}

/// A run does one thing at the start and one more for each event, and its phase follows from the
/// last of them.
proof fn lemma_run_shape<S, I>(events: Seq<Event<S, I>>)
    requires
        possible(events),
    ensures
        actions_of(events).len() == events.len() + 1,
        phase_follows(phase_after(events), actions_of(events).last()),
    decreases events.len(),
{
    if events.len() > 0 {
        lemma_run_shape(events.drop_last());
    }
}

/// A beginning of a run is a run, and what it does is a beginning of what the whole does.
proof fn lemma_run_prefix<S, I>(events: Seq<Event<S, I>>, n: int)
    requires
        possible(events),
        0 <= n <= events.len(),
    ensures
        possible(events.take(n)),
        actions_of(events).take(n + 1) == actions_of(events.take(n)),
    decreases events.len(),
{
    lemma_run_shape(events);
    if n == events.len() {
        assert(events.take(n) =~= events);
        assert(actions_of(events).take(n + 1) =~= actions_of(events));
    } else {
        let before = events.drop_last();
        lemma_run_prefix(before, n);
        lemma_run_shape(before);
        assert(before.take(n) =~= events.take(n));
        assert(actions_of(events).take(n + 1) =~= actions_of(before).take(n + 1));
    }
}

/// Event `i` of a run happens in the phase that the events before it lead to, and leads to action
/// `i + 1`.
proof fn lemma_run_step<S, I>(events: Seq<Event<S, I>>, i: int)
    requires
        possible(events),
        0 <= i < events.len(),
    ensures
        possible(events.take(i)),
        possible(events.take(i + 1)),
        step(phase_after(events.take(i)), events[i]) == Some(
            (phase_after(events.take(i + 1)), actions_of(events)[i + 1]),
        ),
        phase_follows(phase_after(events.take(i)), actions_of(events)[i]),
{
    lemma_run_prefix(events, i);
    lemma_run_prefix(events, i + 1);
    lemma_run_shape(events);
    lemma_run_shape(events.take(i));
    lemma_run_shape(events.take(i + 1));
    let part = events.take(i + 1);
    assert(part.drop_last() =~= events.take(i));
    assert(part.last() == events[i]);
    assert(actions_of(events)[i + 1] == actions_of(events).take(i + 2)[i + 1]);
    assert(actions_of(events)[i] == actions_of(events).take(i + 1)[i]);
}

/// The actor is started first, and once.
pub proof fn law_started_first_and_once<S, I>(events: Seq<Event<S, I>>)
    requires
        possible(events),
    ensures
        actions_of(events).len() == events.len() + 1,
        actions_of(events)[0] is Start,
        forall|i: int| 0 < i <= events.len() ==> !(#[trigger] actions_of(events)[i] is Start),
{
    lemma_run_shape(events);
    lemma_run_prefix(events, 0);
    assert(actions_of(events)[0] == actions_of(events).take(1)[0]);
    assert(events.take(0) =~= Seq::empty());
    assert forall|i: int| 0 < i <= events.len() implies !(#[trigger] actions_of(events)[i] is Start) by {
        lemma_run_step(events, i - 1);
    }
}

/// Every item that comes out of the queue is handled, once, in the order in which they come, and
/// nothing else is.
pub proof fn law_items_handled_in_order<S, I>(events: Seq<Event<S, I>>)
    requires
        possible(events),
    ensures
        items_handled(actions_of(events)) == items_received(events),
    decreases events.len(),
{
    if events.len() == 0 {
        let actions = actions_of(events);
        assert(actions.drop_last() =~= Seq::empty());
        assert(items_handled(actions.drop_last()) =~= Seq::empty());
    } else {
        let before = events.drop_last();
        law_items_handled_in_order(before);
        let actions = actions_of(events);
        assert(actions.drop_last() =~= actions_of(before));
    }
}

/// One item is handled at a time: after the task sets out to handle an item, the next thing that
/// happens to it is that the item has been handled. So a handler is never cut short by the
/// cancellation.
pub proof fn law_one_item_at_a_time<S, I>(events: Seq<Event<S, I>>, i: int)
    requires
        possible(events),
        0 <= i < events.len(),
        actions_of(events)[i] is Handle,
    ensures
        events[i] is Handled,
{
    lemma_run_step(events, i);
}

/// Cancellation ends the task: the actor is stopped, and nothing happens to the task any more, so
/// nothing is handled any more.
pub proof fn law_cancellation_stops<S, I>(events: Seq<Event<S, I>>, i: int)
    requires
        possible(events),
        0 <= i < events.len(),
        events[i] is Cancelled,
    ensures
        actions_of(events)[i + 1] is Stop,
        events.len() == i + 1,
        phase_after(events) is Finished,
{
    lemma_run_step(events, i);
    if events.len() > i + 1 {
        lemma_run_step(events, i + 1);
    }
    assert(events.take(i + 1) =~= events);
}

/// The actor is stopped only because of its cancellation.
pub proof fn law_stopped_only_when_cancelled<S, I>(events: Seq<Event<S, I>>, i: int)
    requires
        possible(events),
        0 <= i < events.len(),
        actions_of(events)[i + 1] is Stop,
    ensures
        events[i] is Cancelled,
{
    lemma_run_step(events, i);
}

/// A task that has ended is done with: nothing can happen to it.
pub proof fn law_nothing_after_the_end<S, I>(phase: Phase<S>, event: Event<S, I>)
    requires
        phase is Finished,
    ensures
        step(phase, event) is None,
{
}

/// The phases from the request to terminate on.
spec fn terminating<S>(phase: Phase<S>, tx: oneshot::Sender<S>) -> bool {
    phase == Phase::Closing(tx) || phase == Phase::Draining(tx) || phase == Phase::DrainHandling(tx)
}

/// Once asked to terminate, a task owes its state to the asker until it hands it back.
proof fn lemma_terminating<S, I>(
    events: Seq<Event<S, I>>,
    k: int,
    n: int,
    tx: oneshot::Sender<S>,
)
    requires
        possible(events),
        0 <= k < n <= events.len(),
        events[k] == Event::<S, I>::Received(ContainerMessage::Terminate(tx)),
    ensures
        possible(events.take(n)),
        ({
            let phase = phase_after(events.take(n));
            terminating(phase, tx) || phase is Finished
        }),
        forall|j: int|
            k < j < n ==> (#[trigger] actions_of(events)[j + 1] matches Action::Reply(to) ==> to == tx),
    decreases n,
{
    lemma_run_step(events, n - 1);
    if n > k + 1 {
        lemma_terminating(events, k, n - 1, tx);
    }
}

/// A request to terminate closes the queue at once; the state goes back to the asker and nobody
/// else; and the actor is neither stopped nor cancelled any more.
pub proof fn law_termination_replies_to_the_asker<S, I>(
    events: Seq<Event<S, I>>,
    k: int,
    tx: oneshot::Sender<S>,
)
    requires
        possible(events),
        0 <= k < events.len(),
        events[k] == Event::<S, I>::Received(ContainerMessage::Terminate(tx)),
    ensures
        actions_of(events)[k + 1] is Close,
        forall|j: int|
            k < j < events.len() ==> !(#[trigger] events[j] is Cancelled || events[j] is Received),
        forall|j: int|
            k < j < events.len() ==> {
                &&& !(#[trigger] actions_of(events)[j + 1] is Stop)
                &&& actions_of(events)[j + 1] matches Action::Reply(to) ==> to == tx
            },
{
    lemma_run_step(events, k);
    lemma_terminating(events, k, events.len() as int, tx);
    assert forall|j: int| k < j < events.len() implies !(#[trigger] events[j] is Cancelled
        || events[j] is Received) by {
        lemma_run_step(events, j);
        lemma_terminating(events, k, j, tx);
    }
    assert forall|j: int| k < j < events.len() implies !(#[trigger] actions_of(events)[j + 1] is Stop)
        && (actions_of(events)[j + 1] matches Action::Reply(to) ==> to == tx) by {
        lemma_run_step(events, j);
        lemma_terminating(events, k, j, tx);
    }
}

/// The state folds over the items that were handled.
proof fn lemma_state_after<S, I>(
    handler: spec_fn(S, I) -> S,
    initial: S,
    actions: Seq<Action<S, I>>,
)
    ensures
        state_after(handler, initial, actions) == items_handled(actions).fold_left(
            initial,
            handler,
        ),
    decreases actions.len(),
{
    if actions.len() > 0 {
        lemma_state_after(handler, initial, actions.drop_last());
        let before = items_handled(actions.drop_last());
        if let Action::Handle(item) = actions.last() {
            assert(before.push(item).drop_last() =~= before);
        }
    }
}

/// The state of an actor is what its handler made of the items that came out of the queue, one
/// after the other.
pub proof fn law_state_reflects_every_item<S, I>(
    events: Seq<Event<S, I>>,
    handler: spec_fn(S, I) -> S,
    initial: S,
)
    requires
        possible(events),
    ensures
        state_after(handler, initial, actions_of(events)) == items_received(events).fold_left(
            initial,
            handler,
        ),
{
    law_items_handled_in_order(events);
    lemma_state_after(handler, initial, actions_of(events));
}

/// The state is handed back only after a request to terminate and only once the closed queue is
/// empty; and what is handed back is what the handler made of every item that came out.
pub proof fn law_handed_back_state_is_complete<S, I>(
    events: Seq<Event<S, I>>,
    handler: spec_fn(S, I) -> S,
    initial: S,
)
    requires
        possible(events),
        actions_of(events).last() is Reply,
    ensures
        events.len() > 0,
        events.last() == Event::<S, I>::Drained(None),
        exists|k: int|
            0 <= k < events.len() && #[trigger] events[k] == Event::<S, I>::Received(
                ContainerMessage::Terminate(actions_of(events).last()->Reply_0),
            ),
        state_after(handler, initial, actions_of(events)) == items_received(events).fold_left(
            initial,
            handler,
        ),
{
    lemma_run_shape(events);
    law_started_first_and_once(events);
    let last = events.len() - 1;
    lemma_run_step(events, last);
    assert(events.take(last + 1) =~= events);
    law_state_reflects_every_item(events, handler, initial);
    lemma_asked_before(events.take(last));
    let tx = actions_of(events).last()->Reply_0;
    assert(terminating(phase_after(events.take(last)), tx));
    let k = choose|k: int|
        0 <= k < last && #[trigger] events.take(last)[k] == Event::<S, I>::Received(
            ContainerMessage::Terminate(tx),
        );
    assert(events[k] == events.take(last)[k]);
}

/// A task that owes its state was asked for it.
proof fn lemma_asked_before<S, I>(events: Seq<Event<S, I>>)
    requires
        possible(events),
    ensures
        forall|tx: oneshot::Sender<S>|
            #[trigger] terminating(phase_after(events), tx) ==> exists|k: int|
                0 <= k < events.len() && #[trigger] events[k] == Event::<S, I>::Received(
                    ContainerMessage::Terminate(tx),
                ),
    decreases events.len(),
{
    if events.len() > 0 {
        let before = events.drop_last();
        lemma_asked_before(before);
        assert forall|tx: oneshot::Sender<S>| #[trigger]
            terminating(phase_after(events), tx) implies exists|k: int|
            0 <= k < events.len() && #[trigger] events[k] == Event::<S, I>::Received(
                ContainerMessage::Terminate(tx),
            ) by {
            if terminating(phase_after(before), tx) {
                let k = choose|k: int|
                    0 <= k < before.len() && #[trigger] before[k] == Event::<S, I>::Received(
                        ContainerMessage::Terminate(tx),
                    );
                assert(events[k] == before[k]);
            } else {
                assert(events[events.len() - 1] == Event::<S, I>::Received(
                    ContainerMessage::Terminate(tx),
                ));
            }
        }
    }
}

/// A task is ready for whatever its last action ends in, and for nothing else. A second request to
/// terminate is not among that; see [`law_drain_meets_only_items`].
pub proof fn law_ready_for_what_it_waits_for<S, I>(events: Seq<Event<S, I>>, event: Event<S, I>)
    requires
        possible(events),
    ensures
        step(phase_after(events), event) is Some <==> ends_in(actions_of(events).last(), event),
{
    lemma_run_shape(events);
}

/// The items received are the items among the messages received.
proof fn lemma_items_among<S, I>(events: Seq<Event<S, I>>)
    ensures
        items_among(messages_received(events)) == items_received(events),
    decreases events.len(),
{
    if events.len() > 0 {
        lemma_items_among(events.drop_last());
        let before = messages_received(events.drop_last());
        match events.last() {
            Event::Received(message) => {
                assert(before.push(message).drop_last() =~= before);
            },
            Event::Drained(Some(message)) => {
                assert(before.push(message).drop_last() =~= before);
            },
            _ => {},
        }
    }
}

/// The state that an actor hands back when it is shut down is what its handler made of every item
/// that was sent to it, in the order in which they were sent, provided that its queue gave out
/// what was sent in that order.
pub proof fn law_shutdown_counts_every_message<S, I>(
    sent: Seq<ContainerMessage<S, I>>,
    events: Seq<Event<S, I>>,
    handler: spec_fn(S, I) -> S,
    initial: S,
)
    requires
        possible(events),
        actions_of(events).last() is Reply,
        messages_received(events) == sent,
    ensures
        items_handled(actions_of(events)) == items_among(sent),
        state_after(handler, initial, actions_of(events)) == items_among(sent).fold_left(
            initial,
            handler,
        ),
{
    lemma_items_among(events);
    law_items_handled_in_order(events);
    law_state_reflects_every_item(events, handler, initial);
}

/// An item is handled in the state that the items before it have led to; so its answer depends on
/// the first state and on those items only.
pub proof fn law_item_sees_the_items_before_it<S, I>(
    events: Seq<Event<S, I>>,
    i: int,
    handler: spec_fn(S, I) -> S,
    initial: S,
)
    requires
        possible(events),
        0 <= i < events.len(),
        actions_of(events)[i + 1] is Handle,
    ensures
        events[i] == Event::<S, I>::Received(
            ContainerMessage::Item(actions_of(events)[i + 1]->Handle_0),
        ) || events[i] == Event::<S, I>::Drained(
            Some(ContainerMessage::Item(actions_of(events)[i + 1]->Handle_0)),
        ),
        state_after(handler, initial, actions_of(events).take(i + 1)) == items_received(
            events.take(i),
        ).fold_left(initial, handler),
{
    lemma_run_step(events, i);
    lemma_run_prefix(events, i);
    law_state_reflects_every_item(events.take(i), handler, initial);
}

/// An actor ends only because it is cancelled, or because it has been asked to terminate and its
/// closed queue is empty. Nothing else ends it, however many addresses of it are dropped.
pub proof fn law_ends_only_when_cancelled_or_asked<S, I>(events: Seq<Event<S, I>>)
    requires
        possible(events),
        phase_after(events) is Finished,
    ensures
        events.len() > 0,
        events.last() is Cancelled || {
            &&& events.last() == Event::<S, I>::Drained(None)
            &&& exists|k: int|
                0 <= k < events.len() && (#[trigger] events[k] matches Event::Received(
                    ContainerMessage::Terminate(_),
                ))
        },
{
    lemma_run_shape(events);
    let last = events.len() - 1;
    lemma_run_step(events, last);
    assert(events.take(last + 1) =~= events);
    if !(events.last() is Cancelled) {
        lemma_asked_before(events.take(last));
        let tx = actions_of(events).last()->Reply_0;
        assert(terminating(phase_after(events.take(last)), tx));
        let k = choose|k: int|
            0 <= k < last && #[trigger] events.take(last)[k] == Event::<S, I>::Received(
                ContainerMessage::Terminate(tx),
            );
        assert(events[k] == Event::<S, I>::Received(ContainerMessage::Terminate(tx)));
    }
}

/// Whether a handler goes by the message of an item alone.
pub open spec fn goes_by<S, I, M>(
    handler: spec_fn(S, I) -> S,
    message: spec_fn(I) -> M,
) -> bool {
    forall|state: S, item: I, other: I|
        message(item) == message(other) ==> #[trigger] handler(state, item) == #[trigger] handler(
            state,
            other,
        )
}

/// What a handler makes of items that carry the same messages is the same, where it goes by the
/// message alone.
proof fn lemma_fold_by_message<S, I, M>(
    items: Seq<I>,
    others: Seq<I>,
    message: spec_fn(I) -> M,
    handler: spec_fn(S, I) -> S,
    initial: S,
)
    requires
        goes_by(handler, message),
        items.map_values(message) == others.map_values(message),
    ensures
        items.fold_left(initial, handler) == others.fold_left(initial, handler),
    decreases items.len(),
{
    let carried = items.map_values(message);
    assert(carried.len() == items.len());
    assert(carried.len() == others.len());
    if items.len() > 0 {
        let before = items.drop_last();
        let others_before = others.drop_last();
        assert(before.map_values(message) =~= carried.drop_last());
        assert(others_before.map_values(message) =~= carried.drop_last());
        lemma_fold_by_message(before, others_before, message, handler, initial);
        assert(carried.last() == message(items.last()));
        assert(carried.last() == message(others.last()));
        let state = before.fold_left(initial, handler);
        assert(handler(state, items.last()) == handler(state, others.last()));
    }
}

/// Sending and notifying lead to one state: two actors that take in the same messages in the same
/// order come to the same state, whichever of the items wait for an answer, as their handler sees
/// the message only.
pub proof fn law_state_goes_by_the_messages<S, I, M>(
    events: Seq<Event<S, I>>,
    others: Seq<Event<S, I>>,
    message: spec_fn(I) -> M,
    handler: spec_fn(S, I) -> S,
    initial: S,
)
    requires
        possible(events),
        possible(others),
        goes_by(handler, message),
        items_received(events).map_values(message) == items_received(others).map_values(message),
    ensures
        state_after(handler, initial, actions_of(events)) == state_after(
            handler,
            initial,
            actions_of(others),
        ),
{
    law_state_reflects_every_item(events, handler, initial);
    law_state_reflects_every_item(others, handler, initial);
    lemma_fold_by_message(
        items_received(events),
        items_received(others),
        message,
        handler,
        initial,
    );
}

/// How many requests to terminate are among messages.
pub open spec fn requests_among<S, I>(messages: Seq<ContainerMessage<S, I>>) -> nat
    decreases messages.len(),
{
    if messages.len() == 0 {
        0
    } else {
        let before = requests_among(messages.drop_last());
        match messages.last() {
            ContainerMessage::Item(_) => before,
            ContainerMessage::Terminate(_) => before + 1,
        }
    }
}

/// A task that has been asked to terminate has received a request.
proof fn lemma_request_received<S, I>(events: Seq<Event<S, I>>)
    requires
        possible(events),
        phase_after(events) is Closing || phase_after(events) is Draining || phase_after(
            events,
        ) is DrainHandling,
    ensures
        requests_among(messages_received(events)) >= 1,
    decreases events.len(),
{
    let before = events.drop_last();
    let messages = messages_received(before);
    match events.last() {
        Event::Received(message) => {
            assert(messages.push(message).drop_last() =~= messages);
        },
        Event::Drained(Some(message)) => {
            lemma_request_received(before);
            assert(messages.push(message).drop_last() =~= messages);
        },
        _ => {
            lemma_request_received(before);
        },
    }
}

/// Where one request to terminate is made at most, draining meets only items: the next message out
/// of the closed queue is one that the task is ready for.
pub proof fn law_drain_meets_only_items<S, I>(
    events: Seq<Event<S, I>>,
    message: ContainerMessage<S, I>,
)
    requires
        possible(events),
        phase_after(events) is Draining,
        requests_among(messages_received(events).push(message)) <= 1,
    ensures
        message is Item,
        step(phase_after(events), Event::Drained(Some(message))) is Some,
{
    lemma_request_received(events);
    let messages = messages_received(events);
    assert(messages.push(message).drop_last() =~= messages);
}

/// An actor once gone stays gone: nothing more happens to a task that has ended, so an item that has
/// not come out of its queue by then is never handled.
pub proof fn law_gone_actor_stays_gone<S, I>(
    events: Seq<Event<S, I>>,
    later: Seq<Event<S, I>>,
    item: I,
)
    requires
        possible(later),
        events.is_prefix_of(later),
        phase_after(events) is Finished,
        !items_received(events).contains(item),
    ensures
        later == events,
        items_handled(actions_of(later)) == items_received(events),
        !items_handled(actions_of(later)).contains(item),
{
    let n = events.len() as int;
    assert(later.take(n) =~= events);
    if later.len() > n {
        lemma_run_step(later, n);
    }
    assert(later =~= events);
    law_items_handled_in_order(later);
}

/// A task to which nothing has happened starts its actor.
pub proof fn law_begins_by_starting<S, I>()
    ensures
        possible(Seq::<Event<S, I>>::empty()),
        actions_of(Seq::<Event<S, I>>::empty()) == seq![Action::<S, I>::Start],
        phase_after(Seq::<Event<S, I>>::empty()) is Starting,
{
}

/// What can happen to a task next is what the last thing that it set out to do ends in, and nothing
/// else: starting ends in the start, waiting in the cancellation or a message, handling in the item
/// being handled, closing in the closed queue, draining in an item or the end of the queue. A task
/// that stops its actor or hands the state back has nothing happen to it any more.
pub proof fn law_what_can_happen_next<S, I>(events: Seq<Event<S, I>>, event: Event<S, I>)
    requires
        possible(events),
    ensures
        possible(events.push(event)) <==> match actions_of(events).last() {
            Action::Start => event is Started,
            Action::Select => event is Cancelled || event is Received,
            Action::Handle(_) => event is Handled,
            Action::Close => event is Closed,
            Action::Drain => event matches Event::Drained(drained) && (drained matches Some(
                message,
            ) ==> message is Item),
            Action::Stop => false,
            Action::Reply(_) => false,
        },
        possible(events.push(event)) <==> step(phase_after(events), event) is Some,
{
    lemma_run_shape(events);
    assert(events.push(event).drop_last() =~= events);
}

/// What a task does after an event follows from the event: a start leads to waiting, a cancellation
/// to the stop of the actor, an item to its being handled, a request to the closing of the queue, a
/// closed queue to draining it, and the end of the queue to the state going back to the one who sent
/// the request. After an item the task goes on as before it: draining if it was asked to terminate,
/// waiting otherwise. What was done before stays as it was.
pub proof fn law_what_follows_an_event<S, I>(events: Seq<Event<S, I>>, event: Event<S, I>)
    requires
        possible(events.push(event)),
    ensures
        possible(events),
        actions_of(events.push(event)).drop_last() == actions_of(events),
        ({
            let action = actions_of(events.push(event)).last();
            let asked = exists|k: int|
                0 <= k < events.len() && (#[trigger] events[k] matches Event::Received(
                    ContainerMessage::Terminate(_),
                ));
            match event {
                Event::Started => action is Select,
                Event::Cancelled => action is Stop,
                Event::Received(ContainerMessage::Item(item)) => action == Action::<S, I>::Handle(
                    item,
                ),
                Event::Received(ContainerMessage::Terminate(_)) => action is Close,
                Event::Closed => action is Drain,
                Event::Drained(Some(ContainerMessage::Item(item))) => action == Action::<
                    S,
                    I,
                >::Handle(item),
                Event::Drained(Some(ContainerMessage::Terminate(_))) => false,
                Event::Drained(None) => action is Reply && exists|k: int|
                    0 <= k < events.len() && #[trigger] events[k] == Event::<S, I>::Received(
                        ContainerMessage::Terminate(action->Reply_0),
                    ),
                Event::Handled => if asked {
                    action is Drain
                } else {
                    action is Select
                },
            }
        }),
{
    let all = events.push(event);
    assert(all.drop_last() =~= events);
    assert(all.last() == event);
    assert(actions_of(all).drop_last() =~= actions_of(events));
    lemma_asked_before(events);
    let phase = phase_after(events);
    match event {
        Event::Drained(None) => {
            let tx = actions_of(all).last()->Reply_0;
            assert(terminating(phase, tx));
        },
        Event::Handled => {
            if let Phase::DrainHandling(tx) = phase {
                assert(terminating(phase, tx));
                let k = choose|k: int|
                    0 <= k < events.len() && #[trigger] events[k] == Event::<S, I>::Received(
                        ContainerMessage::Terminate(tx),
                    );
                assert(events[k] matches Event::Received(ContainerMessage::Terminate(_)));
            } else if exists|k: int|
                0 <= k < events.len() && (#[trigger] events[k] matches Event::Received(
                    ContainerMessage::Terminate(_),
                )) {
                let k = choose|k: int|
                    0 <= k < events.len() && (#[trigger] events[k] matches Event::Received(
                        ContainerMessage::Terminate(_),
                    ));
                if let Event::Received(ContainerMessage::Terminate(tx)) = events[k] {
                    lemma_terminating(events, k, events.len() as int, tx);
                    assert(events.take(events.len() as int) =~= events);
                }
            }
        },
        _ => {},
    }
}

/// A task that drains its queue for one who asked, and finds it at its end, hands its state back to
/// that one and is done.
pub proof fn law_drained_queue_hands_the_state_back<S, I>(
    events: Seq<Event<S, I>>,
    k: int,
    tx: oneshot::Sender<S>,
)
    requires
        possible(events),
        actions_of(events).last() is Drain,
        0 <= k < events.len(),
        events[k] == Event::<S, I>::Received(ContainerMessage::Terminate(tx)),
    ensures
        phase_after(events) == Phase::Draining(tx),
        step(phase_after(events), Event::<S, I>::Drained(None)) == Some(
            (Phase::<S>::Finished, Action::<S, I>::Reply(tx)),
        ),
        possible(events.push(Event::Drained(None))),
        actions_of(events.push(Event::Drained(None))).last() == Action::<S, I>::Reply(tx),
        phase_after(events.push(Event::Drained(None))) is Finished,
        forall|event: Event<S, I>|
            !#[trigger] possible(events.push(Event::Drained(None)).push(event)),
{
    lemma_run_shape(events);
    lemma_terminating(events, k, events.len() as int, tx);
    assert(events.take(events.len() as int) =~= events);
    let all = events.push(Event::<S, I>::Drained(None));
    assert(all.drop_last() =~= events);
    assert forall|event: Event<S, I>| !#[trigger] possible(all.push(event)) by {
        assert(all.push(event).drop_last() =~= all);
    }
}

/// What happens to a task that is asked to terminate while `items` wait in its queue.
pub open spec fn shutdown_events<S, I>(tx: oneshot::Sender<S>, items: Seq<I>) -> Seq<Event<S, I>>
    decreases items.len(),
{
    if items.len() == 0 {
        seq![Event::Received(ContainerMessage::Terminate(tx)), Event::Closed]
    } else {
        shutdown_events(tx, items.drop_last()).push(
            Event::Drained(Some(ContainerMessage::Item(items.last()))),
        ).push(Event::Handled)
    }
}

/// A waiting task that is asked to terminate goes on until it drains again after the items.
proof fn lemma_shutdown_drains<S, I>(
    events: Seq<Event<S, I>>,
    tx: oneshot::Sender<S>,
    items: Seq<I>,
)
    requires
        possible(events),
        actions_of(events).last() is Select,
    ensures
        possible(events + shutdown_events(tx, items)),
        phase_after(events + shutdown_events(tx, items)) == Phase::Draining(tx),
        actions_of(events + shutdown_events(tx, items)).last() is Drain,
        items_handled(actions_of(events + shutdown_events(tx, items))) == items_handled(
            actions_of(events),
        ) + items,
    decreases items.len(),
{
    lemma_run_shape(events);
    if items.len() == 0 {
        let asked = events.push(Event::Received(ContainerMessage::Terminate(tx)));
        let closed = asked.push(Event::Closed);
        assert(asked.drop_last() =~= events);
        assert(closed.drop_last() =~= asked);
        assert(events + shutdown_events(tx, items) =~= closed);
        assert(actions_of(asked).drop_last() =~= actions_of(events));
        assert(actions_of(closed).drop_last() =~= actions_of(asked));
        assert(items_handled(actions_of(asked)) == items_handled(actions_of(events)));
        assert(items_handled(actions_of(closed)) =~= items_handled(actions_of(events)) + items);
    } else {
        lemma_shutdown_drains(events, tx, items.drop_last());
        let before = events + shutdown_events(tx, items.drop_last());
        let drained = before.push(Event::Drained(Some(ContainerMessage::Item(items.last()))));
        let handled = drained.push(Event::Handled);
        assert(drained.drop_last() =~= before);
        assert(handled.drop_last() =~= drained);
        assert(events + shutdown_events(tx, items) =~= handled);
        assert(actions_of(drained).drop_last() =~= actions_of(before));
        assert(actions_of(handled).drop_last() =~= actions_of(drained));
        assert(items_handled(actions_of(handled)) == items_handled(actions_of(drained)));
        assert(items_handled(actions_of(handled)) =~= items_handled(actions_of(events)) + items);
    }
}

/// Shutting a waiting actor down comes to its end, whatever waits in the queue: all those items are
/// handled after what was handled before, in order, and then the state goes back to the asker.
pub proof fn law_shutdown_comes_to_its_end<S, I>(
    events: Seq<Event<S, I>>,
    tx: oneshot::Sender<S>,
    items: Seq<I>,
)
    requires
        possible(events),
        actions_of(events).last() is Select,
    ensures
        ({
            let all = (events + shutdown_events(tx, items)).push(Event::Drained(None));
            &&& possible(all)
            &&& actions_of(all).last() == Action::<S, I>::Reply(tx)
            &&& phase_after(all) is Finished
            &&& items_handled(actions_of(all)) == items_handled(actions_of(events)) + items
        }),
{
    lemma_shutdown_drains(events, tx, items);
    let drained = events + shutdown_events(tx, items);
    let all = drained.push(Event::Drained(None));
    assert(all.drop_last() =~= drained);
    assert(actions_of(all).drop_last() =~= actions_of(drained));
}

} // verus!
