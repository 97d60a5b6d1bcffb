//! Calls to an actor: a message is put into the actor's queue, and its answer is waited for, each
//! with or without a limit on the time.
use crate::error::{Error, Result};
use crate::external::{duration_nanos, instant_gap, time_between};
use crate::item::{Message, MsgItem, NotifyItem};
use crate::reply::FutureReply;
use std::time::{Duration, Instant};
use tokio::sync::mpsc::error::{SendError, SendTimeoutError};
use tokio::sync::oneshot::error::RecvError;
use tokio::time::error::Elapsed;
use vstd::prelude::*;

verus! {

/// How putting a value into the queue went.
#[verifier::reject_recursive_types(T)]
pub enum Enqueued<T> {
    /// There was no limit on the time.
    Unlimited(std::result::Result<(), SendError<T>>),
    /// There was a limit on the time.
    Limited(std::result::Result<(), SendTimeoutError<T>>),
}

/// How waiting for the answer went.
pub enum Answered<R> {
    /// There was no limit on the time.
    Unlimited(std::result::Result<R, RecvError>),
    /// There was a limit on the time.
    Limited(std::result::Result<std::result::Result<R, RecvError>, Elapsed>),
}

/// What putting a value into the queue comes to: a closed queue has no worker any more.
pub open spec fn enqueue_result<T>(enqueued: Enqueued<T>) -> Result<()> {
    match enqueued {
        Enqueued::Unlimited(Ok(())) => Ok(()),
        Enqueued::Unlimited(Err(_)) => Err(Error::WorkerGone),
        Enqueued::Limited(Ok(())) => Ok(()),
        Enqueued::Limited(Err(SendTimeoutError::Timeout(_))) => Err(Error::SendTimeout),
        Enqueued::Limited(Err(SendTimeoutError::Closed(_))) => Err(Error::WorkerGone),
    }
}

/// What waiting for the answer comes to: an answer that nobody can give any more has no worker
/// behind it.
pub open spec fn answer_result<R>(answered: Answered<R>) -> Result<R> {
    match answered {
        Answered::Unlimited(Ok(value)) => Ok(value),
        Answered::Unlimited(Err(_)) => Err(Error::WorkerGone),
        Answered::Limited(Ok(Ok(value))) => Ok(value),
        Answered::Limited(Ok(Err(_))) => Err(Error::WorkerGone),
        Answered::Limited(Err(_)) => Err(Error::SendTimeout),
    }
}

impl<T> Enqueued<T> {
    /// Success, or why the value is not in the queue.
    pub fn result(self) -> (result: Result<()>)
        ensures
            result == enqueue_result(self),
    {
        match self {
            Enqueued::Unlimited(Ok(())) => Ok(()),
            Enqueued::Unlimited(Err(_)) => Err(Error::WorkerGone),
            Enqueued::Limited(Ok(())) => Ok(()),
            Enqueued::Limited(Err(SendTimeoutError::Timeout(_))) => Err(Error::SendTimeout),
            Enqueued::Limited(Err(SendTimeoutError::Closed(_))) => Err(Error::WorkerGone),
        }
    }
}

impl<R> Answered<R> {
    /// The answer, or why there is none.
    pub fn result(self) -> (result: Result<R>)
        ensures
            result == answer_result(self),
    {
        match self {
            Answered::Unlimited(Ok(value)) => Ok(value),
            Answered::Unlimited(Err(_)) => Err(Error::WorkerGone),
            Answered::Limited(Ok(Ok(value))) => Ok(value),
            Answered::Limited(Ok(Err(_))) => Err(Error::WorkerGone),
            Answered::Limited(Err(_)) => Err(Error::SendTimeout),
        }
    }
}

/// A call whose message is not in the queue yet.
pub struct SendCall {
    limit: Option<(Duration, Instant)>,
}

/// A call whose message is in the queue.
pub struct AnswerWait {
    limit: Option<Duration>,
}

/// The nanoseconds of a limit, if there is one.
pub open spec fn limit_nanos(limit: Option<Duration>) -> Option<nat> {
    match limit {
        Some(duration) => Some(duration_nanos(duration)),
        None => None,
    }
}

/// What is left of a limit after some time, in nanoseconds: no limit stays none, and one that is
/// used up is an error.
pub open spec fn rest_of_limit(limit: Option<nat>, used: nat) -> Result<Option<nat>> {
    match limit {
        Some(nanos) => if used <= nanos {
            Ok(Some((nanos - used) as nat))
        } else {
            Err(Error::SendTimeout)
        },
        None => Ok(None),
    }
}

/// What a call comes to, from how its two halves went and how long the first one took.
pub open spec fn send_result<T, R>(
    limit: Option<nat>,
    enqueued: Enqueued<T>,
    used: nat,
    answered: Answered<R>,
) -> Result<R> {
    match enqueue_result(enqueued) {
        Ok(()) => match rest_of_limit(limit, used) {
            Ok(_) => answer_result(answered),
            Err(error) => Err(error),
        },
        Err(error) => Err(error),
    }
}

impl SendCall {
    /// The time that the caller allows for the whole call.
    pub closed spec fn timeout(&self) -> Option<Duration> {
        match self.limit {
            Some((timeout, _)) => Some(timeout),
            None => None,
        }
    }

    /// When the call began, if its time is limited.
    pub closed spec fn began(&self) -> Option<Instant> {
        match self.limit {
            Some((_, began)) => Some(began),
            None => None,
        }
    }

    /// How long the call has taken, in nanoseconds, at a reading of the clock. Without a limit
    /// the time is not taken.
    pub open spec fn used(&self, now: Instant) -> nat {
        match self.began() {
            Some(began) => instant_gap(now, began),
            None => 0,
        }
    }

    /// A call that began at `began`.
    pub fn starting_at(timeout: Option<Duration>, began: Instant) -> (call: SendCall)
        ensures
            call.timeout() == timeout,
            call.began() == match timeout {
                Some(_) => Some(began),
                None => None,
            },
    {
        match timeout {
            Some(timeout) => SendCall { limit: Some((timeout, began)) },
            None => SendCall { limit: None },
        }
    }

    /// A call with this limit that began at a reading of the clock, if it has a limit.
    pub open spec fn begun(&self, timeout: Option<Duration>) -> bool {
        &&& self.timeout() == timeout
        &&& match self.began() {
            Some(began) => timeout is Some && call_ensures(Instant::now, (), began),
            None => timeout is None,
        }
    }

    /// A call that begins now.
    pub fn start(timeout: Option<Duration>) -> (call: SendCall)
        ensures
            call.begun(timeout),
    {
        match timeout {
            Some(_) => Self::starting_at(timeout, Instant::now()),
            None => SendCall { limit: None },
        }
    }

    /// How long to wait for room in the queue: as long as the whole call may take.
    pub fn enqueue_limit(&self) -> (limit: Option<Duration>)
        ensures
            limit == self.timeout(),
    {
        match &self.limit {
            Some((timeout, _)) => Some(*timeout),
            None => None,
        }
    }

    /// The nanoseconds that are left for the answer once putting the message into the queue has
    /// ended, at `now`, if there is a limit; or why the call ends there.
    pub open spec fn answer_nanos<T>(&self, enqueued: Enqueued<T>, now: Instant) -> Result<
        Option<nat>,
    > {
        match enqueue_result(enqueued) {
            Ok(()) => rest_of_limit(limit_nanos(self.timeout()), self.used(now)),
            Err(error) => Err(error),
        }
    }

    /// Goes on once putting the message into the queue has ended, at `now`.
    pub fn enqueued_at<T>(self, enqueued: Enqueued<T>, now: Instant) -> (next: Result<AnswerWait>)
        ensures
            wait_nanos(next) == self.answer_nanos(enqueued, now),
    {
        match enqueued.result() {
            Err(error) => Err(error),
            Ok(()) => match self.limit {
                None => Ok(AnswerWait { limit: None }),
                Some((timeout, began)) => {
                    match timeout.checked_sub(time_between(now, began)) {
                        None => Err(Error::SendTimeout),
                        Some(rest) => Ok(AnswerWait { limit: Some(rest) }),
                    }
                },
            },
        }
    }

    /// Goes on once putting the message into the queue has ended, at whatever the clock shows.
    pub fn enqueued<T>(self, enqueued: Enqueued<T>) -> (next: Result<AnswerWait>)
        ensures
            exists|now: Instant|
                call_ensures(Instant::now, (), now) && wait_nanos(next)
                    == #[trigger] self.answer_nanos(enqueued, now),
    {
        let now = Instant::now();
        let next = self.enqueued_at(enqueued, now);
        assert(wait_nanos(next) == self.answer_nanos(enqueued, now));
        next
    }
}

/// The nanoseconds that are left for the answer of a call that went on, if there is a limit; or
/// why the call ended.
pub open spec fn wait_nanos(next: Result<AnswerWait>) -> Result<Option<nat>> {
    match next {
        Ok(wait) => Ok(limit_nanos(wait.limit())),
        Err(error) => Err(error),
    }
}

impl AnswerWait {
    /// The time that is left for the answer.
    pub closed spec fn limit(&self) -> Option<Duration> {
        self.limit
    }

    /// How long to wait for the answer.
    pub fn answer_limit(&self) -> (limit: Option<Duration>)
        ensures
            limit == self.limit(),
    {
        self.limit
    }

    /// What the call comes to, once waiting for the answer has ended.
    pub fn answered<R>(self, answered: Answered<R>) -> (result: Result<R>)
        ensures
            result == answer_result(answered),
    {
        answered.result()
    }
}

/// The parts of a call that waits for its answer: what to put into the queue, what to wait on
/// after that, and how long each may take.
pub fn send<M: Message>(message: M, timeout: Option<Duration>) -> (parts: (
    MsgItem<M>,
    FutureReply<M::Result>,
    SendCall,
))
    ensures
        parts.0.message == message,
        parts.1.awaits(parts.0.tx),
        parts.2.begun(timeout),
{
    let (item, reply) = MsgItem::new(message);
    (item, reply, SendCall::start(timeout))
}

/// The part of a call that waits for no answer: what to put into the queue.
pub fn notify<M: Message<Result = ()>>(message: M) -> (item: NotifyItem<M>)
    ensures
        item.message == message,
{
    NotifyItem { message }
}

/// What shutting an actor down comes to, from how putting the request into its queue went, and how
/// waiting for the state went if the request got there.
pub open spec fn shutdown_result<T, S>(
    sent: std::result::Result<(), SendError<T>>,
    handed: Option<std::result::Result<S, RecvError>>,
) -> Result<S> {
    match (sent, handed) {
        (Ok(()), Some(Ok(state))) => Ok(state),
        _ => Err(Error::WorkerGone),
    }
}

/// What shutting an actor down comes to: its state, or that the worker is gone. It has no limit on
/// its time, so it never times out.
pub fn shutdown<T, S>(
    sent: std::result::Result<(), SendError<T>>,
    handed: Option<std::result::Result<S, RecvError>>,
) -> (result: Result<S>)
    requires
        sent is Ok <==> handed is Some,
    ensures
        result == shutdown_result(sent, handed),
        result != Err::<S, Error>(Error::SendTimeout),
{
    match Enqueued::Unlimited(sent).result() {
        Err(error) => Err(error),
        Ok(()) => match handed {
            Some(handed) => Answered::Unlimited(handed).result(),
            None => Err(Error::WorkerGone),
        },
    }
}

/// A call made half by half comes to what [`send_result`] says of its halves.
pub proof fn law_call_result<T, R>(
    call: SendCall,
    enqueued: Enqueued<T>,
    now: Instant,
    next: Result<AnswerWait>,
    answered: Answered<R>,
)
    requires
        wait_nanos(next) == call.answer_nanos(enqueued, now),
    ensures
        send_result(limit_nanos(call.timeout()), enqueued, call.used(now), answered) == match next {
            Ok(_) => answer_result(answered),
            Err(error) => Err(error),
        },
{
}

/// A call succeeds exactly when its message got into the queue, time was left then, and the answer
/// came; and its result is that answer.
pub proof fn law_success_is_the_answer<T, R>(
    limit: Option<nat>,
    enqueued: Enqueued<T>,
    used: nat,
    answered: Answered<R>,
    value: R,
)
    ensures
        send_result(limit, enqueued, used, answered) == Ok::<R, Error>(value) <==> {
            &&& enqueue_result(enqueued) is Ok
            &&& limit is Some ==> used <= limit->0
            &&& answer_result(answered) == Ok::<R, Error>(value)
        },
{
}

/// A call succeeds exactly when tokio took its message into the queue, the time it used is within its
/// limit, and tokio gave the answer; and its result is that answer.
pub proof fn law_success_is_what_tokio_gave<T, R>(
    limit: Option<nat>,
    enqueued: Enqueued<T>,
    used: nat,
    answered: Answered<R>,
    value: R,
)
    ensures
        send_result(limit, enqueued, used, answered) == Ok::<R, Error>(value) <==> {
            &&& match enqueued {
                Enqueued::Unlimited(sent) => sent is Ok,
                Enqueued::Limited(sent) => sent is Ok,
            }
            &&& limit is Some ==> used <= limit->0
            &&& match answered {
                Answered::Unlimited(got) => got == Ok::<R, RecvError>(value),
                Answered::Limited(got) => got == Ok::<std::result::Result<R, RecvError>, Elapsed>(
                    Ok(value),
                ),
            }
        },
{
}

/// A call with a limit on its time waits no longer than that: what it leaves for the answer and
/// what it has used make up the limit.
pub proof fn law_time_is_limited<T>(
    call: SendCall,
    enqueued: Enqueued<T>,
    now: Instant,
    wait: AnswerWait,
)
    requires
        wait_nanos(Ok(wait)) == call.answer_nanos(enqueued, now),
        call.timeout() is Some,
    ensures
        wait.limit() is Some,
        duration_nanos(wait.limit()->0) + call.used(now) == duration_nanos(call.timeout()->0),
        call.began() is Some,
        duration_nanos(wait.limit()->0) + instant_gap(now, call.began()->0) == duration_nanos(
            call.timeout()->0,
        ),
{
}

/// A call without a limit on its time never times out.
pub proof fn law_no_limit_no_timeout<T, R>(
    sent: std::result::Result<(), SendError<T>>,
    used: nat,
    got: std::result::Result<R, RecvError>,
)
    ensures
        send_result(None, Enqueued::Unlimited(sent), used, Answered::Unlimited(got)) == match sent {
            Ok(()) => match got {
                Ok(value) => Ok(value),
                Err(_) => Err(Error::WorkerGone),
            },
            Err(_) => Err(Error::WorkerGone),
        },
{
}

/// Whether a call finds its actor gone: the queue is closed, or the message got there in time and
/// nobody can give the answer any more.
pub open spec fn finds_worker_gone<T, R>(
    limit: Option<nat>,
    enqueued: Enqueued<T>,
    used: nat,
    answered: Answered<R>,
) -> bool {
    let refused = match enqueued {
        Enqueued::Unlimited(sent) => sent is Err,
        Enqueued::Limited(sent) => sent matches Err(SendTimeoutError::Closed(_)),
    };
    let unanswered = match answered {
        Answered::Unlimited(got) => got is Err,
        Answered::Limited(got) => got matches Ok(Err(_)),
    };
    refused || enqueue_result(enqueued) is Ok && rest_of_limit(limit, used) is Ok && unanswered
}

/// A call learns that the worker is gone exactly when the queue is closed, or when the message got
/// there in time and nobody can give the answer any more, with or without a limit on its time.
pub proof fn law_gone_worker_is_reported<T, R>(
    limit: Option<nat>,
    enqueued: Enqueued<T>,
    used: nat,
    answered: Answered<R>,
)
    ensures
        send_result(limit, enqueued, used, answered) == Err::<R, _>(Error::WorkerGone) <==> {
            let refused = match enqueued {
                Enqueued::Unlimited(sent) => sent is Err,
                Enqueued::Limited(sent) => sent matches Err(SendTimeoutError::Closed(_)),
            };
            let accepted = match enqueued {
                Enqueued::Unlimited(sent) => sent is Ok,
                Enqueued::Limited(sent) => sent is Ok,
            };
            let unanswered = match answered {
                Answered::Unlimited(got) => got is Err,
                Answered::Limited(got) => got matches Ok(Err(_)),
            };
            refused || accepted && (limit matches Some(nanos) ==> used <= nanos) && unanswered
        },
        send_result(limit, enqueued, used, answered) == Err::<R, _>(Error::WorkerGone)
            <==> finds_worker_gone(limit, enqueued, used, answered),
{
}

/// Putting a value into the queue succeeds exactly when tokio took it, times out exactly when tokio
/// gave it back for want of time, and finds the worker gone otherwise.
pub proof fn law_enqueue_result_follows_the_queue<T>(
    sent: std::result::Result<(), SendError<T>>,
    limited: std::result::Result<(), SendTimeoutError<T>>,
)
    ensures
        enqueue_result(Enqueued::Unlimited(sent)) is Ok <==> sent is Ok,
        sent is Err ==> enqueue_result(Enqueued::Unlimited(sent)) == Err::<(), _>(
            Error::WorkerGone,
        ),
        enqueue_result(Enqueued::Limited(limited)) is Ok <==> limited is Ok,
        enqueue_result(Enqueued::Limited(limited)) == Err::<(), _>(Error::SendTimeout) <==> (
        limited matches Err(SendTimeoutError::Timeout(_))),
        enqueue_result(Enqueued::Limited(limited)) == Err::<(), _>(Error::WorkerGone) <==> (
        limited matches Err(SendTimeoutError::Closed(_))),
{
}

/// The answer is the value that came, if one came; without one, the time was up or the worker is
/// gone, whichever the wait said.
pub proof fn law_answer_result_follows_the_wait<R>(
    got: std::result::Result<R, RecvError>,
    limited: std::result::Result<std::result::Result<R, RecvError>, Elapsed>,
    value: R,
)
    ensures
        answer_result(Answered::Unlimited(got)) == Ok::<R, Error>(value) <==> got == Ok::<
            R,
            RecvError,
        >(value),
        got is Err ==> answer_result(Answered::Unlimited(got)) == Err::<R, _>(Error::WorkerGone),
        answer_result(Answered::Limited(limited)) == Ok::<R, Error>(value) <==> limited == Ok::<
            std::result::Result<R, RecvError>,
            Elapsed,
        >(Ok(value)),
        answer_result(Answered::Limited(limited)) == Err::<R, _>(Error::SendTimeout)
            <==> limited is Err,
        answer_result(Answered::Limited(limited)) == Err::<R, _>(Error::WorkerGone) <==> (
        limited matches Ok(Err(_))),
{
}

/// A call with a limit whose message is in the queue goes on exactly when the time from its
/// beginning to now, by the clock, is within the limit; and what it then leaves for the answer makes
/// up the limit with that time. Otherwise it times out.
pub proof fn law_time_left_by_the_clock<T>(
    call: SendCall,
    enqueued: Enqueued<T>,
    now: Instant,
    next: Result<AnswerWait>,
    timeout: Duration,
    began: Instant,
)
    requires
        wait_nanos(next) == call.answer_nanos(enqueued, now),
        call.timeout() == Some(timeout),
        call.began() == Some(began),
        enqueued matches Enqueued::Unlimited(Ok(())) || enqueued matches Enqueued::Limited(Ok(())),
    ensures
        instant_gap(now, began) <= duration_nanos(timeout) <==> next is Ok,
        next matches Ok(wait) ==> {
            &&& wait.limit() is Some
            &&& duration_nanos(wait.limit()->0) + instant_gap(now, began) == duration_nanos(timeout)
        },
        instant_gap(now, began) > duration_nanos(timeout) ==> next matches Err(
            Error::SendTimeout,
        ),
{
}

/// A call without a limit whose message is in the queue goes on, without a limit on the answer.
pub proof fn law_no_limit_stays_none<T>(
    call: SendCall,
    enqueued: Enqueued<T>,
    now: Instant,
    next: Result<AnswerWait>,
)
    requires
        wait_nanos(next) == call.answer_nanos(enqueued, now),
        call.timeout() is None,
        enqueued matches Enqueued::Unlimited(Ok(())) || enqueued matches Enqueued::Limited(Ok(())),
    ensures
        next matches Ok(wait) && wait.limit() is None,
{
}

/// A call whose message is not in the queue ends there, with the reason, whatever the clock shows.
pub proof fn law_refused_call_ends<T>(
    call: SendCall,
    enqueued: Enqueued<T>,
    now: Instant,
    next: Result<AnswerWait>,
)
    requires
        wait_nanos(next) == call.answer_nanos(enqueued, now),
    ensures
        enqueued matches Enqueued::Unlimited(Err(_)) ==> next matches Err(Error::WorkerGone),
        enqueued matches Enqueued::Limited(Err(SendTimeoutError::Closed(_))) ==> next matches Err(
            Error::WorkerGone,
        ),
        enqueued matches Enqueued::Limited(Err(SendTimeoutError::Timeout(_))) ==> next matches Err(
            Error::SendTimeout,
        ),
{
}

/// Of two readings of the clock for one call, the later one leaves less for the answer by as much as
/// it is later.
pub proof fn law_time_left_shrinks_with_the_clock<T>(
    call: SendCall,
    enqueued: Enqueued<T>,
    now: Instant,
    later: Instant,
    wait: AnswerWait,
    later_wait: AnswerWait,
    began: Instant,
)
    requires
        wait_nanos(Ok(wait)) == call.answer_nanos(enqueued, now),
        wait_nanos(Ok(later_wait)) == call.answer_nanos(enqueued, later),
        call.began() == Some(began),
    ensures
        wait.limit() is Some,
        later_wait.limit() is Some,
        duration_nanos(wait.limit()->0) - duration_nanos(later_wait.limit()->0) == instant_gap(
            later,
            began,
        ) - instant_gap(now, began),
{
}

/// A call that has begun has the limit that its caller gave, and took the time by the clock when it
/// has one.
pub proof fn law_call_begins_by_the_clock(call: SendCall, timeout: Option<Duration>)
    requires
        call.begun(timeout),
    ensures
        call.timeout() == timeout,
        timeout is None ==> call.began() is None,
        timeout is Some ==> call.began() is Some && call_ensures(
            Instant::now,
            (),
            call.began()->0,
        ),
{
}

/// Shutting an actor down gives the state exactly when the request got into the queue and the state
/// came back, and that very state; otherwise the worker is gone.
pub proof fn law_shutdown_gives_what_was_handed_back<T, S>(
    sent: std::result::Result<(), SendError<T>>,
    handed: Option<std::result::Result<S, RecvError>>,
    state: S,
)
    ensures
        shutdown_result(sent, handed) == Ok::<S, Error>(state) <==> sent is Ok && handed == Some(
            Ok::<S, RecvError>(state),
        ),
        shutdown_result(sent, handed) is Err <==> shutdown_result(sent, handed) == Err::<S, _>(
            Error::WorkerGone,
        ),
{
}

} // verus!
