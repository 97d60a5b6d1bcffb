//! The life of a mock's task: what it does next after each thing that happens to it.
//!
//! The task waits for a message, has it handled to its end, and waits again, until its queue is
//! gone.
use crate::item::ContainerMessage;
use std::any::TypeId;
use vstd::pervasive::unreached;
use vstd::prelude::*;

verus! {

/// Where in its life a mock's task is.
pub enum MockPhase {
    /// The task waits for a message.
    Receiving,
    /// An item is being handled.
    Handling,
    /// The task waits for nothing any more.
    Finished,
}

/// What happens to a mock's task.
#[verifier::reject_recursive_types(S)]
pub enum MockEvent<S, I> {
    /// A message has come out of the queue, or no further one will.
    Received(Option<ContainerMessage<S, I>>),
    /// The item has been handled.
    Handled,
}

/// What a mock's task does next.
pub enum MockAction<I> {
    /// Wait for a message.
    Receive,
    /// Have the item handled.
    Handle(I),
    /// End.
    End,
}

/// The phase and the action that follow an event, where the event can happen in the phase. A mock
/// has no state to hand back, so a request to terminate has no place here.
pub open spec fn mock_step<S, I>(phase: MockPhase, event: MockEvent<S, I>) -> Option<
    (MockPhase, MockAction<I>),
> {
    match (phase, event) {
        (MockPhase::Receiving, MockEvent::Received(Some(ContainerMessage::Item(item)))) => Some(
            (MockPhase::Handling, MockAction::Handle(item)),
        ),
        (MockPhase::Receiving, MockEvent::Received(None)) => Some(
            (MockPhase::Finished, MockAction::End),
        ),
        (MockPhase::Handling, MockEvent::Handled) => Some(
            (MockPhase::Receiving, MockAction::Receive),
        ),
        _ => None,
    }
}

/// The phase after a sequence of events, and all that was done from the start on; nothing if one of
/// the events could not happen when it did.
pub open spec fn mock_run<S, I>(events: Seq<MockEvent<S, I>>) -> Option<
    (MockPhase, Seq<MockAction<I>>),
>
    decreases events.len(),
{
    if events.len() == 0 {
        Some((MockPhase::Receiving, seq![MockAction::Receive]))
    } else {
        match mock_run(events.drop_last()) {
            Some((phase, actions)) => match mock_step(phase, events.last()) {
                Some((next, action)) => Some((next, actions.push(action))),
                None => None,
            },
            None => None,
        }
    }
}

/// Whether the events can happen to a mock's task, one after the other.
pub open spec fn mock_possible<S, I>(events: Seq<MockEvent<S, I>>) -> bool {
    mock_run(events) is Some
}

/// The phase that the events lead to.
pub open spec fn mock_phase_after<S, I>(events: Seq<MockEvent<S, I>>) -> MockPhase {
    mock_run(events).unwrap().0
}

/// All that the task does, from the start to what follows the last event.
pub open spec fn mock_actions_of<S, I>(events: Seq<MockEvent<S, I>>) -> Seq<MockAction<I>> {
    mock_run(events).unwrap().1
}

/// The items that came out of the queue, in the order in which they came.
pub open spec fn mock_items_received<S, I>(events: Seq<MockEvent<S, I>>) -> Seq<I>
    decreases events.len(),
{
    if events.len() == 0 {
        Seq::empty()
    } else {
        let before = mock_items_received(events.drop_last());
        match events.last() {
            MockEvent::Received(Some(ContainerMessage::Item(item))) => before.push(item),
            _ => before,
        }
    }
}

/// The items that were handled, in the order in which they were.
pub open spec fn mock_items_handled<I>(actions: Seq<MockAction<I>>) -> Seq<I>
    decreases actions.len(),
{
    if actions.len() == 0 {
        Seq::empty()
    } else {
        let before = mock_items_handled(actions.drop_last());
        match actions.last() {
            MockAction::Handle(item) => before.push(item),
            _ => before,
        }
    }
}

/// Where in its life a mock's task is, and how it came there.
#[verifier::reject_recursive_types(S)]
#[verifier::reject_recursive_types(I)]
pub struct MockLife<S, I> {
    phase: MockPhase,
    events: Ghost<Seq<MockEvent<S, I>>>,
}

impl<S, I> MockLife<S, I> {
    /// Where in its life the task is.
    pub closed spec fn phase(&self) -> MockPhase {
        self.phase
    }

    /// All that has happened to the task.
    pub closed spec fn events(&self) -> Seq<MockEvent<S, I>> {
        self.events@
    }

    /// The task has come to its phase by what has happened to it.
    pub open spec fn wf(&self) -> bool {
        &&& mock_possible(self.events())
        &&& mock_phase_after(self.events()) == self.phase()
    }

    /// A task to which nothing has happened yet.
    pub fn new() -> (life: Self)
        ensures
            life.wf(),
            life.phase() is Receiving,
            life.events() == Seq::<MockEvent<S, I>>::empty(),
    {
        MockLife { phase: MockPhase::Receiving, events: Ghost(Seq::empty()) }
    }

    /// What the task does next, after something has happened to it.
    pub fn next(&mut self, event: MockEvent<S, I>) -> (action: MockAction<I>)
        requires
            old(self).wf(),
            mock_step(old(self).phase(), event) is Some,
        ensures
            final(self).wf(),
            final(self).events() == old(self).events().push(event),
            mock_step(old(self).phase(), event) == Some((final(self).phase(), action)),
            mock_actions_of(final(self).events()) == mock_actions_of(old(self).events()).push(
                action,
            ),
    {
        let ghost events = self.events@.push(event);
        assert(events.drop_last() =~= self.events@);
        self.events = Ghost(events);
        let (phase, action) = match (&self.phase, event) {
            (
                MockPhase::Receiving,
                MockEvent::Received(Some(ContainerMessage::Item(item))),
            ) => (MockPhase::Handling, MockAction::Handle(item)),
            (MockPhase::Receiving, MockEvent::Received(None)) => {
                (MockPhase::Finished, MockAction::End)
            },
            (MockPhase::Handling, MockEvent::Handled) => {
                (MockPhase::Receiving, MockAction::Receive)
            },
            _ => unreached(),
        };
        self.phase = phase;
        action
    }
}

/// Every item that comes out of a mock's queue is handled, once, in the order in which they come,
/// and nothing else is.
pub proof fn law_mock_items_handled_in_order<S, I>(events: Seq<MockEvent<S, I>>)
    requires
        mock_possible(events),
    ensures
        mock_items_handled(mock_actions_of(events)) == mock_items_received(events),
    decreases events.len(),
{
    let actions = mock_actions_of(events);
    if events.len() == 0 {
        assert(actions.drop_last() =~= Seq::empty());
        assert(mock_items_handled(actions.drop_last()) =~= Seq::empty());
    } else {
        law_mock_items_handled_in_order(events.drop_last());
        assert(actions.drop_last() =~= mock_actions_of(events.drop_last()));
    }
}

/// A mock's task does one thing at a time: it handles an item only when it waits for a message, and
/// waits for the next one only when the item has been handled. It ends only with its queue.
pub proof fn law_mock_handles_one_item_at_a_time<S, I>(
    events: Seq<MockEvent<S, I>>,
    event: MockEvent<S, I>,
)
    requires
        mock_possible(events),
        mock_possible(events.push(event)),
    ensures
        match mock_actions_of(events).last() {
            MockAction::Receive => event is Received,
            MockAction::Handle(_) => event is Handled,
            MockAction::End => false,
        },
        mock_actions_of(events.push(event)).last() is End <==> event == MockEvent::<
            S,
            I,
        >::Received(None),
{
    assert(events.push(event).drop_last() =~= events);
    if events.len() > 0 {
        assert(mock_possible(events.drop_last()));
    }
}

/// The handlers of a mock after items have been handled, each by the handler for the type of its
/// message, where `apply` gives the handler after an item from the one before it.
pub open spec fn handlers_after<H, I>(
    handlers: Map<TypeId, H>,
    type_of: spec_fn(I) -> TypeId,
    apply: spec_fn(H, I) -> H,
    items: Seq<I>,
) -> Map<TypeId, H>
    decreases items.len(),
{
    if items.len() == 0 {
        handlers
    } else {
        let before = handlers_after(handlers, type_of, apply, items.drop_last());
        let message_type = type_of(items.last());
        before.insert(message_type, apply(before[message_type], items.last()))
    }
}

/// The items whose messages are of a type.
pub open spec fn items_of_type<I>(
    items: Seq<I>,
    type_of: spec_fn(I) -> TypeId,
    message_type: TypeId,
) -> Seq<I>
    decreases items.len(),
{
    if items.len() == 0 {
        Seq::empty()
    } else {
        let before = items_of_type(items.drop_last(), type_of, message_type);
        if type_of(items.last()) == message_type {
            before.push(items.last())
        } else {
            before
        }
    }
}

/// Each handler of a mock handles the messages of its own type, each once and in order, and no
/// other: what it has become is what those have made of it.
pub proof fn law_each_handler_sees_its_own_messages<H, I>(
    handlers: Map<TypeId, H>,
    type_of: spec_fn(I) -> TypeId,
    apply: spec_fn(H, I) -> H,
    items: Seq<I>,
    message_type: TypeId,
)
    ensures
        handlers_after(handlers, type_of, apply, items)[message_type] == items_of_type(
            items,
            type_of,
            message_type,
        ).fold_left(handlers[message_type], apply),
    decreases items.len(),
{
    if items.len() > 0 {
        law_each_handler_sees_its_own_messages(
            handlers,
            type_of,
            apply,
            items.drop_last(),
            message_type,
        );
        let before = items_of_type(items.drop_last(), type_of, message_type);
        assert(before.push(items.last()).drop_last() =~= before);
    }
}

/// A mock's task to which nothing has happened waits for a message.
pub proof fn law_mock_begins_by_waiting<S, I>()
    ensures
        mock_possible(Seq::<MockEvent<S, I>>::empty()),
        mock_actions_of(Seq::<MockEvent<S, I>>::empty()) == seq![MockAction::<I>::Receive],
{
}

/// What a mock's task last set out to do says in which phase it is.
proof fn lemma_mock_shape<S, I>(events: Seq<MockEvent<S, I>>)
    requires
        mock_possible(events),
    ensures
        mock_actions_of(events).len() == events.len() + 1,
        match mock_actions_of(events).last() {
            MockAction::Receive => mock_phase_after(events) is Receiving,
            MockAction::Handle(_) => mock_phase_after(events) is Handling,
            MockAction::End => mock_phase_after(events) is Finished,
        },
    decreases events.len(),
{
    if events.len() > 0 {
        lemma_mock_shape(events.drop_last());
    }
}

/// What can happen to a mock's task next is what the last thing that it set out to do ends in:
/// waiting in an item or the end of the queue, handling in the item being handled, and the end in
/// nothing. An item is then handled, the end of the queue is the end of the task, and after an item
/// the task waits again. What was done before stays as it was.
pub proof fn law_what_a_mock_does_next<S, I>(
    events: Seq<MockEvent<S, I>>,
    event: MockEvent<S, I>,
)
    requires
        mock_possible(events),
    ensures
        mock_possible(events.push(event)) <==> match mock_actions_of(events).last() {
            MockAction::Receive => event matches MockEvent::Received(received) && (
            received matches Some(message) ==> message is Item),
            MockAction::Handle(_) => event is Handled,
            MockAction::End => false,
        },
        mock_possible(events.push(event)) <==> mock_step(mock_phase_after(events), event) is Some,
        mock_possible(events.push(event)) ==> {
            let actions = mock_actions_of(events.push(event));
            &&& actions.drop_last() == mock_actions_of(events)
            &&& match event {
                MockEvent::Received(Some(ContainerMessage::Item(item))) => actions.last()
                    == MockAction::Handle(item),
                MockEvent::Received(_) => actions.last() is End,
                MockEvent::Handled => actions.last() is Receive,
            }
        },
{
    lemma_mock_shape(events);
    let all = events.push(event);
    assert(all.drop_last() =~= events);
    if mock_possible(all) {
        assert(mock_actions_of(all).drop_last() =~= mock_actions_of(events));
    }
}

} // verus!
