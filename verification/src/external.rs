//! What the library takes from tokio, tokio-util, futures and std: the opaque types it carries
//! through, and the contracts it believes of the calls it makes into them.
use futures::future::{AbortHandle, AbortRegistration};
use std::any::TypeId;
use std::task::{Context as TaskContext, Poll};
use std::time::{Duration, Instant};
use tokio::sync::{mpsc, oneshot};
use tokio_util::sync::CancellationToken;
use vstd::prelude::*;

verus! {

/// The sending half of a tokio channel. Two handles are equal when they send into one channel.
#[verifier::external_type_specification]
#[verifier::external_body]
#[verifier::reject_recursive_types(T)]
pub struct ExMpscSender<T>(mpsc::Sender<T>);

/// The receiving half of a tokio channel.
#[verifier::external_type_specification]
#[verifier::external_body]
#[verifier::reject_recursive_types(T)]
pub struct ExMpscReceiver<T>(mpsc::Receiver<T>);

/// What tokio returns for a value that could not be sent because the channel is closed.
#[verifier::external_type_specification]
#[verifier::reject_recursive_types(T)]
pub struct ExSendError<T>(mpsc::error::SendError<T>);

/// What tokio returns for a value that could not be sent in time, or at all.
#[verifier::external_type_specification]
#[verifier::reject_recursive_types(T)]
pub struct ExSendTimeoutError<T>(mpsc::error::SendTimeoutError<T>);

/// The sending half of a tokio channel for a single value.
#[verifier::external_type_specification]
#[verifier::external_body]
#[verifier::reject_recursive_types(T)]
pub struct ExOneshotSender<T>(oneshot::Sender<T>);

/// The receiving half of a tokio channel for a single value.
#[verifier::external_type_specification]
#[verifier::external_body]
#[verifier::reject_recursive_types(T)]
pub struct ExOneshotReceiver<T>(oneshot::Receiver<T>);

/// What waiting on a single-value channel gives once its sender is gone.
#[verifier::external_type_specification]
#[verifier::external_body]
pub struct ExRecvError(oneshot::error::RecvError);

/// What a tokio timeout gives when the time is up.
#[verifier::external_type_specification]
#[verifier::external_body]
pub struct ExElapsed(tokio::time::error::Elapsed);

/// A node of a tree of cancellation tokens.
#[verifier::external_type_specification]
#[verifier::external_body]
pub struct ExCancellationToken(CancellationToken);

/// The handle by which an abortable task is aborted.
#[verifier::external_type_specification]
#[verifier::external_body]
pub struct ExAbortHandle(AbortHandle);

/// The registration that makes a task abortable.
#[verifier::external_type_specification]
#[verifier::external_body]
pub struct ExAbortRegistration(AbortRegistration);

/// The identity of a Rust type.
#[verifier::external_type_specification]
#[verifier::external_body]
pub struct ExTypeId(TypeId);

/// A reading of the monotonic clock.
#[verifier::external_type_specification]
#[verifier::external_body]
pub struct ExInstant(Instant);

/// The context in which a future is polled.
#[verifier::external_type_specification]
#[verifier::external_body]
pub struct ExTaskContext<'a>(TaskContext<'a>);

/// What polling a future gives.
#[verifier::external_type_specification]
#[verifier::reject_recursive_types(T)]
pub struct ExPoll<T>(Poll<T>);

/// The whole nanoseconds of a `Duration`, as `Duration::as_nanos` gives them.
pub uninterp spec fn duration_nanos(duration: Duration) -> nat;

/// The nanoseconds from one reading of the clock to a later one, and none if the second is the
/// earlier one: what subtracting two `Instant`s gives.
pub uninterp spec fn instant_gap(later: Instant, earlier: Instant) -> nat;

/// The tokens by which a token can be cancelled, from the root of its tree down to itself.
pub uninterp spec fn token_lineage(token: CancellationToken) -> Seq<int>;

/// `tokio::sync::mpsc::channel`: opens a channel that buffers up to `buffer` values. It panics on
/// a buffer of none, and on one above tokio's semaphore limit, an eighth of `usize::MAX`. Nothing
/// is said of the two halves here: that they are of one channel is that one call gave them, which is
/// what [`crate::mailbox::queue_halves`] says.
pub assume_specification<T>[ mpsc::channel::<T> ](buffer: usize) -> (halves: (
    mpsc::Sender<T>,
    mpsc::Receiver<T>,
))
    requires
        0 < buffer <= usize::MAX / 8,
;

/// `Clone` of `tokio::sync::mpsc::Sender`: the clone sends into the same channel.
pub assume_specification<T>[ <mpsc::Sender<T> as Clone>::clone ](
    sender: &mpsc::Sender<T>,
) -> (copy: mpsc::Sender<T>)
    ensures
        copy == *sender,
;

/// `tokio::sync::oneshot::channel`: opens a channel for one value. Nothing is said of the two
/// halves here: that they are of one channel is that one call gave them, which is what
/// [`crate::channel::channel_halves`] says.
pub assume_specification<T>[ oneshot::channel::<T> ]() -> (halves: (
    oneshot::Sender<T>,
    oneshot::Receiver<T>,
))
;

/// `tokio::sync::oneshot::Sender::send`: hands the value over, or gives that same value back if
/// the receiver is gone. Which of the two happens is up to the other task.
pub assume_specification<T>[ oneshot::Sender::<T>::send ](
    sender: oneshot::Sender<T>,
    t: T,
) -> (sent: std::result::Result<(), T>)
    ensures
        sent matches Err(back) ==> back == t,
;

/// `tokio_util::sync::CancellationToken::new`: the root of a tree of its own.
pub assume_specification[ CancellationToken::new ]() -> (token: CancellationToken)
    ensures
        token_lineage(token).len() == 1,
;

/// `tokio_util::sync::CancellationToken::child_token`: a token that is cancelled whenever its
/// parent is, hence whenever anything is that cancels the parent, and that does not cancel its
/// parent. That two children of one parent differ, so that neither cancels the other, cannot be said
/// of one call, and is not stated.
pub assume_specification[ CancellationToken::child_token ](
    token: &CancellationToken,
) -> (child: CancellationToken)
    ensures
        token_lineage(child).len() == token_lineage(*token).len() + 1,
        token_lineage(child).drop_last() == token_lineage(*token),
;

/// `tokio_util::sync::CancellationToken::cancel`: cancels the token and all that descend from it.
/// That effect is on other tasks, and is not stated here; [`cancel_called`] says that the call was
/// made. It is given the token to change: nothing is known of its value afterwards, so a token of
/// which something is known has not been cancelled by whoever hands it out, and one who is only lent
/// a token cannot cancel it.
#[verifier::external_body]
pub(crate) fn cancel_token(token: &mut CancellationToken)
    opens_invariants none
    no_unwind
{
    token.cancel()
}

/// That a call of `CancellationToken::cancel` on a token returned. Nothing else gives this, so it is
/// had only after such a call; it says nothing of when the call was made.
pub closed spec fn cancel_called(token: CancellationToken) -> bool {
    exists|call: &mut CancellationToken|
        *call == token && #[trigger] call_ensures(cancel_token, (call,), ())
}

/// A token has been cancelled exactly when [`cancel_token`] has been called on it.
pub(crate) proof fn lemma_cancel_called(token: CancellationToken)
    ensures
        cancel_called(token) <==> exists|call: &mut CancellationToken|
            *call == token && #[trigger] call_ensures(cancel_token, (call,), ()),
{
}

/// `futures::future::AbortHandle::new_pair`: a handle, and the registration of the task that it
/// aborts. Nothing is said of the two here: that they belong together is that one call gave them,
/// which is what [`crate::mock::aborts`] says.
pub assume_specification[ AbortHandle::new_pair ]() -> (pair: (AbortHandle, AbortRegistration))
;

/// `futures::future::AbortHandle::abort`: lets the task that the handle belongs to make no further
/// progress. That effect is on another task, and is not stated here; [`abort_called`] says that the
/// call was made. It is given the handle to change: nothing is known of its value afterwards.
#[verifier::external_body]
pub(crate) fn abort_task(handle: &mut AbortHandle)
    opens_invariants none
    no_unwind
{
    handle.abort()
}

/// That a call of `AbortHandle::abort` on a handle returned. Nothing else gives this, so it is had
/// only after such a call; it says nothing of when the call was made.
pub closed spec fn abort_called(handle: AbortHandle) -> bool {
    exists|call: &mut AbortHandle|
        *call == handle && #[trigger] call_ensures(abort_task, (call,), ())
}

/// A task has been aborted exactly when [`abort_task`] has been called on its handle.
pub(crate) proof fn lemma_abort_called(handle: AbortHandle)
    ensures
        abort_called(handle) <==> exists|call: &mut AbortHandle|
            *call == handle && #[trigger] call_ensures(abort_task, (call,), ()),
{
}

/// `Duration::checked_sub`: the difference, or nothing where it would be negative.
pub assume_specification[ Duration::checked_sub ](
    duration: Duration,
    rhs: Duration,
) -> (difference: Option<Duration>)
    ensures
        match difference {
            Some(rest) => duration_nanos(rest) + duration_nanos(rhs) == duration_nanos(duration),
            None => duration_nanos(duration) < duration_nanos(rhs),
        },
;

/// `Instant::now`: a reading of the clock, of which nothing is promised.
pub assume_specification[ Instant::now ]() -> (now: Instant)
;

/// Subtraction of two `Instant`s: the time from `earlier` to `later`.
#[verifier::external_body]
pub(crate) fn time_between(later: Instant, earlier: Instant) -> (gap: Duration)
    ensures
        duration_nanos(gap) == instant_gap(later, earlier),
{
    later - earlier
}

/// `==` of two `TypeId`s: they are equal when they are of one type.
#[verifier::external_body]
pub(crate) fn same_type(a: &TypeId, b: &TypeId) -> (same: bool)
    ensures
        same == (*a == *b),
{
    a == b
}

} // verus!
