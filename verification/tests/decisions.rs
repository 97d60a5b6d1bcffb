use flo_state::call::{notify, send, shutdown, Answered, Enqueued, SendCall};
use flo_state::item::{answer, ContainerMessage, ItemObj, MsgItem};
use flo_state::lifecycle::{Action, Event, Phase};
use flo_state::mailbox::Mailbox;
use flo_state::reply::FutureReply;
use flo_state::type_map::TypeMap;
use flo_state::worker::Life;
use flo_state::{Error, Message, Owner, Registry, RegistryError};
use std::any::TypeId;
use std::task::{Context, Poll, Waker};
use std::time::{Duration, Instant};
use tokio::sync::mpsc::error::{SendError, SendTimeoutError};
use tokio::sync::oneshot;

struct Question(u32);
impl Message for Question {
    type Result = u32;
}

struct Remark(u32);
impl Message for Remark {
    type Result = ();
}

fn block_on<F: std::future::Future>(future: F) -> F::Output {
    tokio::runtime::Builder::new_current_thread()
        .enable_all()
        .build()
        .unwrap()
        .block_on(future)
}

#[test]
fn errors_in_words() {
    assert_eq!(Error::WorkerGone.message(), "worker gone");
    assert_eq!(Error::SendTimeout.message(), "send timeout");
    assert_eq!(RegistryError::RegistryGone.message(), "registry gone");
}

#[test]
fn enqueue_errors() {
    assert_eq!(Enqueued::<u8>::Unlimited(Ok(())).result(), Ok(()));
    assert_eq!(Enqueued::Unlimited(Err(SendError(1u8))).result(), Err(Error::WorkerGone));
    assert_eq!(Enqueued::<u8>::Limited(Ok(())).result(), Ok(()));
    assert_eq!(
        Enqueued::Limited(Err(SendTimeoutError::Timeout(1u8))).result(),
        Err(Error::SendTimeout)
    );
    assert_eq!(
        Enqueued::Limited(Err(SendTimeoutError::Closed(1u8))).result(),
        Err(Error::WorkerGone)
    );
}

#[test]
fn answer_errors() {
    let (tx, rx) = oneshot::channel::<u32>();
    drop(tx);
    let gone = block_on(rx).unwrap_err();
    let up = block_on(async {
        let (_tx, rx) = oneshot::channel::<u32>();
        tokio::time::timeout(Duration::from_millis(1), rx).await.unwrap_err()
    });
    assert_eq!(Answered::Unlimited(Ok(5)).result(), Ok(5));
    assert_eq!(Answered::<u32>::Unlimited(Err(gone.clone())).result(), Err(Error::WorkerGone));
    assert_eq!(Answered::Limited(Ok(Ok(5))).result(), Ok(5));
    assert_eq!(Answered::<u32>::Limited(Ok(Err(gone))).result(), Err(Error::WorkerGone));
    assert_eq!(Answered::<u32>::Limited(Err(up)).result(), Err(Error::SendTimeout));
}

#[test]
fn time_left_for_the_answer() {
    let began = Instant::now();
    let timeout = Duration::from_millis(100);
    let call = SendCall::starting_at(Some(timeout), began);
    assert_eq!(call.enqueue_limit(), Some(timeout));
    let wait = call
        .enqueued_at(Enqueued::<u8>::Limited(Ok(())), began + Duration::from_millis(30))
        .ok()
        .unwrap();
    assert_eq!(wait.answer_limit(), Some(Duration::from_millis(70)));
    assert_eq!(wait.answered(Answered::Limited(Ok(Ok(9)))), Ok(9));

    let call = SendCall::starting_at(Some(timeout), began);
    let wait = call.enqueued_at(Enqueued::<u8>::Limited(Ok(())), began + timeout).ok().unwrap();
    assert_eq!(wait.answer_limit(), Some(Duration::ZERO));

    let call = SendCall::starting_at(Some(timeout), began);
    let late = call.enqueued_at(
        Enqueued::<u8>::Limited(Ok(())),
        began + Duration::from_millis(100) + Duration::from_nanos(1),
    );
    assert_eq!(late.err(), Some(Error::SendTimeout));

    let call = SendCall::starting_at(Some(timeout), began);
    let closed = call.enqueued_at(Enqueued::Limited(Err(SendTimeoutError::Closed(1u8))), began);
    assert_eq!(closed.err(), Some(Error::WorkerGone));

    let call = SendCall::starting_at(None, began);
    assert_eq!(call.enqueue_limit(), None);
    let wait = call.enqueued(Enqueued::<u8>::Unlimited(Ok(()))).ok().unwrap();
    assert_eq!(wait.answer_limit(), None);

    let call = SendCall::start(Some(Duration::ZERO));
    std::hint::black_box(());
    std::iter::repeat(()).take(1000).for_each(|()| {
        std::hint::black_box(Instant::now());
    });
    assert_eq!(
        call.enqueued(Enqueued::<u8>::Limited(Ok(()))).err(),
        Some(Error::SendTimeout)
    );
}

#[test]
fn parts_of_a_call() {
    let (item, reply, call) = send(Question(6), Some(Duration::from_secs(1)));
    assert_eq!(item.message.0, 6);
    assert_eq!(call.enqueue_limit(), Some(Duration::from_secs(1)));
    item.tx.send(36).unwrap();
    assert_eq!(block_on(reply.into_receiver()), Ok(36));
    assert_eq!(notify(Remark(4)).message.0, 4);
}

#[test]
fn items_open_once() {
    let (item, reply) = MsgItem::new(Question(6));
    let mut item = Some(item);
    let opened = item.open().unwrap();
    assert_eq!(opened.message.0, 6);
    assert!(item.open().is_none());
    assert_eq!(answer(opened.tx, 12), Some(Ok(())));
    assert_eq!(block_on(reply.into_receiver()), Ok(12));

    let mut item = Some(notify(Remark(3)));
    let opened = item.as_mock_message();
    assert_eq!(opened.message.0, 3);
    assert!(opened.tx.is_none());
    assert!(item.is_none());
    assert_eq!(answer(opened.tx, ()), None);

    let (item, reply) = MsgItem::new(Question(1));
    drop(reply);
    assert_eq!(answer(Some(item).as_mock_message().tx, 8), Some(Err(8)));
}

#[test]
fn reply_is_polled_to_its_end() {
    let mut cx = Context::from_waker(Waker::noop());

    let (tx, mut reply) = FutureReply::channel();
    assert_eq!(reply.poll(&mut cx), Poll::Pending);
    assert!(!reply.is_finished());
    assert_eq!(tx.send(17), Ok(()));
    assert_eq!(reply.poll(&mut cx), Poll::Ready(Some(17)));
    assert!(reply.is_finished());

    let (tx, mut reply) = FutureReply::<u8>::channel();
    drop(tx);
    assert_eq!(reply.poll(&mut cx), Poll::Ready(None));
    assert!(reply.is_finished());

    let (tx, reply) = FutureReply::channel();
    drop(reply);
    assert_eq!(tx.send(5), Err(5));

    assert_eq!(FutureReply::output(Poll::Ready(Ok(3))), Poll::Ready(Some(3)));
    assert_eq!(FutureReply::<u8>::output(Poll::Pending), Poll::Pending);
}

#[test]
fn mailbox_closes() {
    let (owner, _ctx, mut worker) = Owner::<u8, u8>::new(0);
    let asking = owner.shutdown();
    asking.tx.try_send(ContainerMessage::Item(1)).ok().unwrap();
    worker.close();
    assert!(asking.tx.try_send(ContainerMessage::Item(2)).is_err());
    assert!(matches!(block_on(worker.mailbox.rx.recv()), Some(ContainerMessage::Item(1))));
    assert!(block_on(worker.mailbox.rx.recv()).is_none());
}

#[test]
fn mailbox_passes_messages_on_in_order() {
    let (tx, mut mailbox) = Mailbox::open(2);
    assert_eq!(tx.max_capacity(), 2);
    assert_eq!(mailbox.rx.max_capacity(), 2);
    tx.try_send(1).unwrap();
    tx.try_send(2).unwrap();
    assert!(tx.try_send(3).is_err());
    assert_eq!(block_on(mailbox.rx.recv()), Some(1));
    assert_eq!(block_on(mailbox.rx.recv()), Some(2));
}

#[test]
fn shutdown_gives_the_state_or_no_worker() {
    let (tx, rx) = oneshot::channel::<u32>();
    drop(tx);
    let gone = block_on(rx).unwrap_err();
    assert_eq!(shutdown::<u8, u32>(Ok(()), Some(Ok(5))), Ok(5));
    assert_eq!(shutdown::<u8, u32>(Ok(()), Some(Err(gone))), Err(Error::WorkerGone));
    assert_eq!(shutdown::<u8, u32>(Err(SendError(1)), None), Err(Error::WorkerGone));
}

#[test]
fn life_of_a_cancelled_task() {
    let mut life = Life::<u8, &str>::new();
    assert!(matches!(life.next(Event::Started), Action::Select));
    assert!(matches!(
        life.next(Event::Received(ContainerMessage::Item("a"))),
        Action::Handle("a")
    ));
    assert!(matches!(life.next(Event::Handled), Action::Select));
    assert!(matches!(life.next(Event::Cancelled), Action::Stop));
}

#[test]
fn life_of_a_terminated_task() {
    let mut life = Life::<u8, &str>::new();
    let (tx, rx) = oneshot::channel();
    assert!(matches!(life.next(Event::Started), Action::Select));
    assert!(matches!(
        life.next(Event::Received(ContainerMessage::Terminate(tx))),
        Action::Close
    ));
    assert!(matches!(life.next(Event::Closed), Action::Drain));
    assert!(matches!(
        life.next(Event::Drained(Some(ContainerMessage::Item("b")))),
        Action::Handle("b")
    ));
    assert!(matches!(life.next(Event::Handled), Action::Drain));
    match life.next(Event::Drained(None)) {
        Action::Reply(tx) => tx.send(9).unwrap(),
        _ => panic!("the state is owed"),
    }
    assert_eq!(block_on(rx), Ok(9));
}

#[test]
fn phases_follow_each_other() {
    let (phase, action) = Phase::<u8>::Starting.next(Event::<u8, ()>::Started);
    assert!(matches!(phase, Phase::Selecting));
    assert!(matches!(action, Action::Select));
    let (phase, action) = phase.next(Event::<u8, ()>::Cancelled);
    assert!(matches!(phase, Phase::Finished));
    assert!(matches!(action, Action::Stop));
}

#[test]
fn type_map_keeps_one_value_for_each_type() {
    let mut map = TypeMap::new();
    assert_eq!(map.get(&TypeId::of::<u8>()), None);
    assert_eq!(map.insert(TypeId::of::<u8>(), 1), None);
    assert_eq!(map.insert(TypeId::of::<u16>(), 2), None);
    assert_eq!(map.insert(TypeId::of::<u8>(), 3), Some(1));
    assert_eq!(map.get(&TypeId::of::<u8>()), Some(&3));
    assert_eq!(map.get(&TypeId::of::<u16>()), Some(&2));
    *map.get_mut(&TypeId::of::<u16>()).unwrap() += 5;
    assert_eq!(map.get(&TypeId::of::<u16>()), Some(&7));
    assert_eq!(map.get(&TypeId::of::<u8>()), Some(&3));
    assert_eq!(map.get_mut(&TypeId::of::<u32>()), None);
}

#[test]
fn failed_creation_leaves_the_registry_as_it_is() {
    let mut registry = Registry::<u8, &str>::new();
    assert_eq!(*registry.data(), 0);
    let service = TypeId::of::<Question>();
    assert_eq!(registry.created(service, Err("no")), Err("no"));
    assert_eq!(registry.resolve(&service), None);
    assert_eq!(registry.created::<()>(service, Ok("container")), Ok(()));
    assert_eq!(registry.resolve(&service), Some(&"container"));
    assert_eq!(registry.resolve(&TypeId::of::<Remark>()), None);
}
