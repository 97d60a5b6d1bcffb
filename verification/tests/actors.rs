use flo_state::actor::{Asking, Notifying, Sending};
use flo_state::call;
use flo_state::call::{Answered, Enqueued};
use flo_state::error::Result;
use flo_state::item::{answer, ContainerMessage, ItemObj, MsgItem, NotifyItem};
use flo_state::lifecycle::{Action, Event};
use flo_state::mock::{Mock, MockTask, MockWorker};
use flo_state::mock_life::{MockAction, MockEvent};
use flo_state::registry::{reached, Resolving};
use flo_state::worker::Worker;
use flo_state::{Addr, Context, Deferred, Error, Message, Owner, Registry, RegistryError};
use futures::future::{select, Abortable, Either};
use std::any::{Any, TypeId};
use std::future::Future;
use std::time::{Duration, Instant};
use tokio::sync::mpsc::channel;
use tokio::sync::oneshot;

// A small runtime: handlers that do not wait, and tasks that do.

trait Handler<M: Message>: Sized {
    fn handle(&mut self, ctx: &mut Ctx<Self>, message: M) -> M::Result;
}

trait AnyItem<S>: Send {
    fn run(&mut self, state: &mut S, ctx: &mut Ctx<S>);
    fn open_boxed(&mut self) -> (TypeId, Box<dyn Any + Send>, Option<Box<dyn Any + Send>>);
}

struct Item<S>(Box<dyn AnyItem<S>>);

type Ctx<S> = Context<S, Item<S>>;

impl<S: Handler<M>, M: Message> AnyItem<S> for Option<MsgItem<M>> {
    fn run(&mut self, state: &mut S, ctx: &mut Ctx<S>) {
        if let Some(opened) = self.open() {
            let result = state.handle(ctx, opened.message);
            answer(opened.tx, result);
        }
    }
    fn open_boxed(&mut self) -> (TypeId, Box<dyn Any + Send>, Option<Box<dyn Any + Send>>) {
        let opened = self.as_mock_message();
        (
            TypeId::of::<M>(),
            Box::new(opened.message),
            opened.tx.map(|tx| Box::new(tx) as Box<dyn Any + Send>),
        )
    }
}

impl<S: Handler<M>, M: Message<Result = ()>> AnyItem<S> for Option<NotifyItem<M>> {
    fn run(&mut self, state: &mut S, ctx: &mut Ctx<S>) {
        if let Some(opened) = self.open() {
            state.handle(ctx, opened.message);
        }
    }
    fn open_boxed(&mut self) -> (TypeId, Box<dyn Any + Send>, Option<Box<dyn Any + Send>>) {
        let opened = self.as_mock_message();
        (
            TypeId::of::<M>(),
            Box::new(opened.message),
            opened.tx.map(|tx| Box::new(tx) as Box<dyn Any + Send>),
        )
    }
}

/// How a task ended.
#[derive(Debug, PartialEq)]
enum End<S> {
    Stopped(S),
    HandedBack,
}

async fn run<S>(mut ctx: Ctx<S>, mut worker: Worker<S, Item<S>>) -> End<S> {
    let mut action = worker.begin();
    loop {
        let event = match action {
            Action::Start => Event::Started,
            Action::Select => {
                let cancelled = Box::pin(worker.token.cancelled());
                let received = Box::pin(worker.mailbox.rx.recv());
                match select(cancelled, received).await {
                    Either::Left(_) => Event::Cancelled,
                    Either::Right((message, _)) => Event::Received(message.unwrap()),
                }
            }
            Action::Handle(mut item) => {
                item.0.run(&mut worker.state, &mut ctx);
                Event::Handled
            }
            Action::Stop => return End::Stopped(worker.state),
            Action::Close => {
                worker.close();
                Event::Closed
            }
            Action::Drain => Event::Drained(worker.mailbox.rx.recv().await),
            Action::Reply(tx) => {
                let _ = worker.hand_back(tx);
                return End::HandedBack;
            }
        };
        action = worker.next(event);
    }
}

fn start<S: Send + 'static>(state: S) -> Owner<S, Item<S>> {
    let (owner, ctx, worker) = Owner::new(state);
    tokio::spawn(async move {
        run(ctx, worker).await;
    });
    owner
}

async fn finish<S, M>(sending: Sending<'_, S, Item<S>, M>) -> Result<M::Result>
where
    S: Handler<M>,
    M: Message,
{
    let Sending { tx, item, reply, call } = sending;
    let message = ContainerMessage::Item(Item(Box::new(Some(item)) as Box<dyn AnyItem<S>>));
    let enqueued = match call.enqueue_limit() {
        Some(limit) => Enqueued::Limited(tx.send_timeout(message, limit).await),
        None => Enqueued::Unlimited(tx.send(message).await),
    };
    let wait = call.enqueued(enqueued)?;
    let rx = reply.into_receiver();
    let answered = match wait.answer_limit() {
        Some(limit) => Answered::Limited(tokio::time::timeout(limit, rx).await),
        None => Answered::Unlimited(rx.await),
    };
    wait.answered(answered)
}

async fn finish_notify<S, M>(notifying: Notifying<'_, S, Item<S>, M>) -> Result<()>
where
    S: Handler<M>,
    M: Message<Result = ()>,
{
    let Notifying { tx, item, timeout } = notifying;
    let message = ContainerMessage::Item(Item(Box::new(Some(item)) as Box<dyn AnyItem<S>>));
    match timeout {
        Some(limit) => Enqueued::Limited(tx.send_timeout(message, limit).await).result(),
        None => Enqueued::Unlimited(tx.send(message).await).result(),
    }
}

async fn shutdown<S>(owner: Owner<S, Item<S>>) -> Result<S> {
    let Asking { owner: _owner, tx, request, state } = owner.shutdown();
    let sent = tx.send(request).await;
    let handed = match &sent {
        Ok(()) => Some(state.into_receiver().await),
        Err(_) => None,
    };
    call::shutdown(sent, handed)
}

fn block_on<F: Future>(future: F) -> F::Output {
    tokio::runtime::Builder::new_current_thread()
        .enable_all()
        .build()
        .unwrap()
        .block_on(future)
}

// A counter.

#[derive(Debug, PartialEq)]
struct State {
    value: i64,
}

struct Add;
impl Message for Add {
    type Result = ();
}
impl Handler<Add> for State {
    fn handle(&mut self, _: &mut Ctx<Self>, _: Add) {
        self.value += 1
    }
}

struct Sub;
impl Message for Sub {
    type Result = ();
}
impl Handler<Sub> for State {
    fn handle(&mut self, _: &mut Ctx<Self>, _: Sub) {
        self.value -= 1
    }
}

struct GetValue;
impl Message for GetValue {
    type Result = i64;
}
impl Handler<GetValue> for State {
    fn handle(&mut self, _: &mut Ctx<Self>, _: GetValue) -> i64 {
        self.value
    }
}

#[test]
fn test_send() {
    block_on(async {
        let container = start(State { value: 0 });
        let addr = container.addr();

        for _ in 0..10_usize {
            finish(addr.send(Add)).await.unwrap();
        }

        for _ in 0..20_usize {
            finish(addr.send(Sub)).await.unwrap();
        }

        let value = finish(addr.send(GetValue)).await.unwrap();
        assert_eq!(value, -10);

        let state = shutdown(container).await.unwrap();
        assert_eq!(state.value, -10)
    });
}

#[test]
fn test_spawn() {
    block_on(async {
        let (tx, mut rx) = channel::<oneshot::Sender<()>>(1);

        let task = async move {
            while let Some(tx) = rx.recv().await {
                tx.send(()).unwrap();
            }
        };

        let (container, ctx, worker) = Owner::<(), Item<()>>::new(());
        let running = tokio::spawn(run(ctx, worker));
        let token = container.spawn();
        tokio::spawn(async move {
            token.run_until_cancelled(task).await;
        });

        for _ in 0..3 {
            let (t, r) = oneshot::channel();
            tx.send(t).await.unwrap();
            r.await.unwrap();
        }

        drop(container);
        tokio::time::sleep(Duration::from_secs(1)).await;

        let (t, _r) = oneshot::channel();
        tx.send(t).await.err().unwrap();
        assert_eq!(running.await.unwrap(), End::Stopped(()));
    });
}

#[test]
fn dropped_owner_ends_tasks_of_its_context() {
    block_on(async {
        let (container, ctx, worker) = Owner::<State, Item<State>>::new(State { value: 7 });
        let of_context = ctx.spawn();
        let of_owner = container.spawn();
        let later = ctx.send_later(Add, Duration::from_secs(3600));
        assert_eq!(later.after, Duration::from_secs(3600));
        let addr = container.addr();
        let running = tokio::spawn(run(ctx, worker));
        assert!(!of_context.is_cancelled());
        assert!(!of_owner.is_cancelled());
        drop(container);
        assert!(of_context.is_cancelled());
        assert!(of_owner.is_cancelled());
        assert!(later.token.is_cancelled());
        assert_eq!(running.await.unwrap(), End::Stopped(State { value: 7 }));
        assert_eq!(finish(addr.send(GetValue)).await, Err(Error::WorkerGone));
        assert_eq!(finish_notify(addr.notify(Add)).await, Err(Error::WorkerGone));
        assert_eq!(
            finish(addr.send_timeout(Duration::from_secs(5), GetValue)).await,
            Err(Error::WorkerGone)
        );
    });
}

#[test]
fn dropped_context_ends_its_tasks_only() {
    let (container, ctx, worker) = Owner::<(), Item<()>>::new(());
    let of_context = ctx.spawn();
    let of_owner = container.spawn();
    drop(ctx);
    assert!(!worker.token.is_cancelled());
    assert!(of_context.is_cancelled());
    assert!(!of_owner.is_cancelled());
}

#[test]
fn message_sent_later_reaches_the_actor_itself() {
    block_on(async {
        let (container, ctx, worker) = Owner::<State, Item<State>>::new(State { value: 0 });
        let later = ctx.send_later(Add, Duration::from_millis(1));
        tokio::spawn(run(ctx, worker));
        tokio::time::sleep(later.after).await;
        finish(later.addr.send(later.message)).await.unwrap();
        assert_eq!(shutdown(container).await.unwrap().value, 1);
    });
}

#[test]
fn shutdown_handles_what_still_waits() {
    block_on(async {
        let (container, ctx, worker) = Owner::<State, Item<State>>::new(State { value: 0 });
        // The task does not run yet, so all of this waits in the queue.
        for _ in 0..5 {
            finish_notify(container.notify(Add)).await.unwrap();
        }
        let addr = container.addr();
        let Asking { owner: _owner, tx, request, state } = container.shutdown();
        tx.send(request).await.ok().unwrap();
        finish_notify(addr.notify(Add)).await.unwrap();
        assert_eq!(run(ctx, worker).await, End::HandedBack);
        assert_eq!(state.into_receiver().await.unwrap().value, 6);
        assert_eq!(finish_notify(addr.notify(Add)).await, Err(Error::WorkerGone));
    });
}

#[test]
fn sending_and_notifying_lead_to_one_state() {
    block_on(async {
        let sent = start(State { value: 0 });
        let notified = start(State { value: 0 });
        for _ in 0..3 {
            finish(sent.send(Add)).await.unwrap();
            finish_notify(notified.notify(Add)).await.unwrap();
        }
        finish(sent.send(Sub)).await.unwrap();
        finish_notify(notified.notify(Sub)).await.unwrap();
        assert_eq!(shutdown(sent).await, Ok(State { value: 2 }));
        assert_eq!(shutdown(notified).await, Ok(State { value: 2 }));
    });
}

#[test]
fn actor_outlives_its_addresses() {
    block_on(async {
        let container = start(State { value: 5 });
        let addr = container.addr();
        finish(addr.clone().send(Add)).await.unwrap();
        drop(addr);
        tokio::task::yield_now().await;
        assert_eq!(finish(container.send(GetValue)).await, Ok(6));
    });
}

#[test]
fn cancelled_actor_leaves_what_still_waits() {
    block_on(async {
        let (container, ctx, worker) = Owner::<State, Item<State>>::new(State { value: 3 });
        let addr = container.addr();
        let waiting = tokio::spawn(async move { finish(addr.send(Add)).await });
        tokio::task::yield_now().await;
        drop(container);
        assert_eq!(run(ctx, worker).await, End::Stopped(State { value: 3 }));
        assert_eq!(waiting.await.unwrap(), Err(Error::WorkerGone));
    });
}

#[test]
fn queue_has_room_for_thirty_two() {
    block_on(async {
        let (container, _ctx, worker) = Owner::<State, Item<State>>::new(State { value: 0 });
        for _ in 0..32 {
            finish_notify(container.notify_timeout(Duration::from_millis(1), Add)).await.unwrap();
        }
        assert_eq!(
            finish_notify(container.notify_timeout(Duration::from_millis(1), Add)).await,
            Err(Error::SendTimeout)
        );
        assert_eq!(
            finish(container.send_timeout(Duration::from_millis(1), Add)).await,
            Err(Error::SendTimeout)
        );
        drop(worker);
        assert_eq!(
            finish_notify(container.notify_timeout(Duration::from_millis(1), Add)).await,
            Err(Error::WorkerGone)
        );
    });
}

#[test]
fn unanswered_call_times_out() {
    block_on(async {
        let (container, _ctx, _worker) = Owner::<State, Item<State>>::new(State { value: 0 });
        let began = Instant::now();
        let result = finish(container.send_timeout(Duration::from_millis(20), GetValue)).await;
        assert_eq!(result, Err(Error::SendTimeout));
        assert!(began.elapsed() >= Duration::from_millis(20));
    });
}

#[test]
fn answer_in_time_is_the_result() {
    block_on(async {
        let container = start(State { value: 41 });
        finish(container.send(Add)).await.unwrap();
        let timeout = Duration::from_secs(10);
        assert_eq!(finish(container.send_timeout(timeout, GetValue)).await, Ok(42));
        finish_notify(container.addr().notify_timeout(timeout, Add)).await.unwrap();
        let recipient = container.addr().recipient();
        let again = recipient.clone();
        assert_eq!(finish(recipient.send(GetValue)).await, Ok(43));
        assert_eq!(finish(again.send_timeout(timeout, GetValue)).await, Ok(43));
    });
}

// Mocks.

struct TestActor;

struct TestMessage;
impl Message for TestMessage {
    type Result = i32;
}
impl Handler<TestMessage> for TestActor {
    fn handle(&mut self, _: &mut Ctx<Self>, _: TestMessage) -> i32 {
        0
    }
}

struct Poke;
impl Message for Poke {
    type Result = ();
}
impl Handler<Poke> for TestActor {
    fn handle(&mut self, _: &mut Ctx<Self>, _: Poke) {}
}

type MockHandler = Box<dyn FnMut(Box<dyn Any + Send>, Option<Box<dyn Any + Send>>) + Send>;

fn mock_handler<M: Message>(mut f: impl FnMut(&M) -> M::Result + Send + 'static) -> MockHandler {
    Box::new(move |message, tx| {
        let result = f(message.downcast_ref::<M>().unwrap());
        let tx = tx.map(|tx| {
            *tx.downcast::<oneshot::Sender<M::Result>>().ok().unwrap()
        });
        answer(tx, result);
    })
}

async fn run_mock<S>(mut worker: MockWorker<S, Item<S>, MockHandler>) {
    let mut action = worker.begin();
    loop {
        let event = match action {
            MockAction::Receive => MockEvent::Received(worker.mailbox.rx.recv().await),
            MockAction::Handle(mut item) => {
                let (message_type, message, tx) = item.0.open_boxed();
                let handler =
                    worker.handler(&message_type).expect("message mock handler not provided");
                handler(message, tx);
                MockEvent::Handled
            }
            MockAction::End => return,
        };
        action = worker.next(event);
    }
}

#[test]
fn test_mock() {
    block_on(async {
        let actor = start(TestActor);

        assert_eq!(finish(actor.send(TestMessage)).await.unwrap(), 0);

        let mut value = 41;
        let (mock, task) = Mock::<TestActor, Item<TestActor>>::builder()
            .handle(
                TypeId::of::<TestMessage>(),
                mock_handler(move |_: &TestMessage| {
                    value += 1;
                    value
                }),
            )
            .build::<TestActor, Item<TestActor>>();
        let MockTask { worker, registration, .. } = task;
        tokio::spawn(Abortable::new(run_mock(worker), registration));

        assert_eq!(finish(mock.addr().send(TestMessage)).await.unwrap(), 42);
        assert_eq!(finish(mock.addr().send(TestMessage)).await.unwrap(), 43);
        assert_eq!(finish(mock.addr().send(TestMessage)).await.unwrap(), 44);
        assert_eq!(finish(mock.addr().send(TestMessage)).await.unwrap(), 45);
    });
}

#[test]
fn mock_takes_the_last_handler_of_each_type() {
    block_on(async {
        let (poked, mut pokes) = tokio::sync::mpsc::unbounded_channel();
        let (mock, task) = Mock::<TestActor, Item<TestActor>>::builder()
            .handle(TypeId::of::<TestMessage>(), mock_handler(|_: &TestMessage| 1))
            .handle(
                TypeId::of::<Poke>(),
                mock_handler(move |_: &Poke| {
                    poked.send(()).unwrap();
                }),
            )
            .handle(TypeId::of::<TestMessage>(), mock_handler(|_: &TestMessage| 2))
            .build::<TestActor, Item<TestActor>>();
        let MockTask { worker, registration, .. } = task;
        let running = tokio::spawn(Abortable::new(run_mock(worker), registration));
        let addr = mock.addr();
        assert_eq!(finish(addr.send(TestMessage)).await, Ok(2));
        finish_notify(addr.notify(Poke)).await.unwrap();
        pokes.recv().await.unwrap();
        drop(mock);
        assert!(running.await.unwrap().is_err());
        assert_eq!(finish(addr.send(TestMessage)).await, Err(Error::WorkerGone));
    });
}

#[test]
fn mock_handles_messages_in_order_by_their_types() {
    block_on(async {
        let (seen, mut order) = tokio::sync::mpsc::unbounded_channel();
        let also = seen.clone();
        let (mock, task) = Mock::<TestActor, Item<TestActor>>::builder()
            .handle(
                TypeId::of::<TestMessage>(),
                mock_handler(move |_: &TestMessage| {
                    seen.send('m').unwrap();
                    7
                }),
            )
            .handle(
                TypeId::of::<Poke>(),
                mock_handler(move |_: &Poke| {
                    also.send('p').unwrap();
                }),
            )
            .build::<TestActor, Item<TestActor>>();
        let MockTask { worker, registration, .. } = task;
        tokio::spawn(Abortable::new(run_mock(worker), registration));
        let addr = mock.addr();
        finish_notify(addr.notify(Poke)).await.unwrap();
        assert_eq!(finish(addr.send(TestMessage)).await, Ok(7));
        finish_notify(addr.notify(Poke)).await.unwrap();
        finish(addr.send(Poke)).await.unwrap();
        let mut all = Vec::new();
        while let Ok(one) = order.try_recv() {
            all.push(one);
        }
        assert_eq!(all, vec!['p', 'm', 'p', 'p']);
    });
}

#[test]
fn actor_once_gone_stays_gone() {
    block_on(async {
        let container = start(State { value: 0 });
        let addr = container.addr();
        let recipient = container.addr().recipient();
        finish(addr.send(Add)).await.unwrap();
        drop(container);
        tokio::task::yield_now().await;
        for _ in 0..3 {
            assert_eq!(finish(addr.send(Add)).await, Err(Error::WorkerGone));
            assert_eq!(finish(addr.clone().send(Add)).await, Err(Error::WorkerGone));
            assert_eq!(finish(recipient.send(Add)).await, Err(Error::WorkerGone));
            assert_eq!(finish_notify(addr.notify(Add)).await, Err(Error::WorkerGone));
        }
    });
}

#[test]
fn mock_ends_with_its_queue_and_knows_its_handlers() {
    let (mock, task) = Mock::<TestActor, Item<TestActor>>::builder::<u8>()
        .handle(TypeId::of::<Poke>(), 5)
        .build::<TestActor, Item<TestActor>>();
    let mut worker = task.worker;
    assert_eq!(worker.handler(&TypeId::of::<TestMessage>()), None);
    *worker.handler(&TypeId::of::<Poke>()).unwrap() += 1;
    assert_eq!(worker.handler(&TypeId::of::<Poke>()), Some(&mut 6));
    assert!(matches!(worker.begin(), MockAction::Receive));
    assert!(matches!(worker.next(MockEvent::Received(None)), MockAction::End));
    assert_eq!(worker.mailbox.rx.max_capacity(), 1);
    drop(mock);
}

// Services.

struct Data {
    id: i32,
}

type Containers = Registry<Data, Box<dyn Any>>;

type RegistryId = i32;

trait Service: Sized + Send + 'static {
    fn create(registry: &mut Containers) -> std::result::Result<Self, RegistryError>;
}

fn resolve<S: Service>(
    registry: &mut Containers,
) -> std::result::Result<Addr<S, Item<S>>, RegistryError> {
    let service = TypeId::of::<S>();
    if let Some(container) = registry.resolve(&service) {
        return Ok(container.downcast_ref::<Owner<S, Item<S>>>().unwrap().addr());
    }
    let created = S::create(registry).map(|state| Box::new(start(state)) as Box<dyn Any>);
    registry.created(service, created)?;
    let container = registry.resolve(&service).unwrap();
    Ok(container.downcast_ref::<Owner<S, Item<S>>>().unwrap().addr())
}

fn resolve_deferred<S: Service>(
    deferred: &mut Deferred<S, Item<S>, RegistryId>,
    registry: Option<&mut Containers>,
) -> std::result::Result<Addr<S, Item<S>>, RegistryError> {
    match deferred.resolve() {
        Resolving::Resolved(addr) => Ok(addr),
        Resolving::Ask(id) => {
            let registry = reached(registry)?;
            assert_eq!(registry.data().id, *id);
            deferred.asked(resolve(registry))
        }
    }
}

static CREATED: std::sync::atomic::AtomicU32 = std::sync::atomic::AtomicU32::new(0);

struct Dep;
impl Service for Dep {
    fn create(_: &mut Containers) -> std::result::Result<Self, RegistryError> {
        CREATED.fetch_add(1, std::sync::atomic::Ordering::SeqCst);
        Ok(Dep)
    }
}

struct Number {
    dep_deferred: Deferred<Dep, Item<Dep>, RegistryId>,
    value: i32,
}

struct Increase;
impl Message for Increase {
    type Result = ();
}
impl Handler<Increase> for Number {
    fn handle(&mut self, _: &mut Ctx<Self>, _: Increase) {
        self.value += 1;
    }
}

struct GetNumber;
impl Message for GetNumber {
    type Result = i32;
}
impl Handler<GetNumber> for Number {
    fn handle(&mut self, _: &mut Ctx<Self>, _: GetNumber) -> i32 {
        self.value
    }
}

struct TakeDeferred;
impl Message for TakeDeferred {
    type Result = Deferred<Dep, Item<Dep>, RegistryId>;
}
impl Handler<TakeDeferred> for Number {
    fn handle(&mut self, _: &mut Ctx<Self>, _: TakeDeferred) -> Deferred<Dep, Item<Dep>, RegistryId> {
        self.dep_deferred.clone()
    }
}

impl Service for Number {
    fn create(registry: &mut Containers) -> std::result::Result<Self, RegistryError> {
        let _dep = resolve::<Dep>(registry)?;

        assert_eq!(registry.data().id, 42);

        Ok(Number { dep_deferred: registry.deferred(42), value: 0 })
    }
}

#[test]
fn test_registry() {
    block_on(async {
        let mut registry = Containers::with_data(Data { id: 42 });
        for _ in 0..3 {
            let number = resolve::<Number>(&mut registry).unwrap();
            finish(number.send(Increase)).await.unwrap();
        }

        let number = resolve::<Number>(&mut registry).unwrap();
        let value = finish(number.send(GetNumber)).await.unwrap();

        let mut deferred = finish(number.send(TakeDeferred)).await.unwrap();
        let _dep = resolve_deferred(&mut deferred, Some(&mut registry)).unwrap();
        assert_eq!(CREATED.load(std::sync::atomic::Ordering::SeqCst), 1);

        assert_eq!(value, 0 + 1 + 1 + 1);

        // Resolved once, it needs no registry any more; a fresh one does.
        drop(registry);
        assert!(resolve_deferred(&mut deferred, None).is_ok());
        assert!(resolve_deferred(&mut deferred.clone(), None).is_ok());
        let mut fresh = finish(number.send(TakeDeferred)).await;
        assert!(fresh.is_err());
        let mut never = Containers::with_data(Data { id: 0 }).deferred::<Dep, Item<Dep>, RegistryId>(0);
        assert_eq!(resolve_deferred(&mut never, None).err(), Some(RegistryError::RegistryGone));
        assert!(fresh.as_mut().is_err());
    });
}

#[test]
fn cloned_deferred_leads_to_the_same_registry() {
    let deferred = Deferred::<Dep, Item<Dep>, RegistryId>::new(7);
    let copy = deferred.clone();
    assert!(matches!(deferred.resolve(), Resolving::Ask(7)));
    assert!(matches!(copy.resolve(), Resolving::Ask(7)));
}

#[test]
fn test_service() {
    struct Number(i32);
    struct Increase;
    impl Message for Increase {
        type Result = ();
    }
    impl Handler<Increase> for Number {
        fn handle(&mut self, _: &mut Ctx<Self>, _: Increase) {
            self.0 += 1;
        }
    }
    struct GetValue;
    impl Message for GetValue {
        type Result = i32;
    }
    impl Handler<GetValue> for Number {
        fn handle(&mut self, _: &mut Ctx<Self>, _: GetValue) -> i32 {
            self.0
        }
    }

    fn resolve(
        registry: &mut flo_state::service::Registry<Owner<Number, Item<Number>>>,
    ) -> Addr<Number, Item<Number>> {
        let service = TypeId::of::<Number>();
        if registry.resolve(&service).is_none() {
            registry.created::<()>(service, Ok(start(Number(0)))).unwrap();
        }
        registry.resolve(&service).unwrap().addr()
    }

    block_on(async {
        let mut registry = flo_state::service::Registry::new();
        let deferred = registry.deferred(TypeId::of::<Number>());
        assert!(deferred.resolve(&registry).is_none());
        finish(resolve(&mut registry).send(Increase)).await.unwrap();
        finish(resolve(&mut registry).send(Increase)).await.unwrap();
        finish(resolve(&mut registry).send(Increase)).await.unwrap();

        let value = finish(resolve(&mut registry).send(GetValue)).await.unwrap();
        assert_eq!(value, 0 + 1 + 1 + 1);

        let same = deferred.resolve(&registry).unwrap().addr();
        assert_eq!(finish(same.send(GetValue)).await, Ok(3));
    });
}
