//! The queue of messages that wait for an actor.
use tokio::sync::mpsc;
use vstd::prelude::*;

verus! {

/// The receiving end of an actor's queue.
#[verifier::reject_recursive_types(T)]
pub struct Mailbox<T> {
    pub rx: mpsc::Receiver<T>,
    pub record: QueueRecord<T>,
}

/// What is known of a queue.
#[verifier::reject_recursive_types(T)]
pub struct QueueRecord<T> {
    sender: Ghost<mpsc::Sender<T>>,
    capacity: Ghost<nat>,
    closed: Ghost<bool>,
}

/// Whether the two are the ends of one queue in which up to `capacity` messages wait: what one call
/// of `tokio::sync::mpsc::channel` gave.
pub open spec fn queue_halves<T>(
    capacity: usize,
    tx: mpsc::Sender<T>,
    rx: mpsc::Receiver<T>,
) -> bool {
    call_ensures(mpsc::channel::<T>, (capacity,), (tx, rx))
}

impl<T> Mailbox<T> {
    /// The receiving half inside.
    pub open spec fn receiver(&self) -> mpsc::Receiver<T> {
        self.rx
    }

    /// The sender by which messages come in. All its clones are equal to it.
    pub closed spec fn sender(&self) -> mpsc::Sender<T> {
        self.record.sender@
    }

    /// How many messages can wait.
    pub closed spec fn capacity(&self) -> nat {
        self.record.capacity@
    }

    /// Whether the queue has been closed: nobody gets a place in it any more. One who already holds a
    /// place still sends.
    pub closed spec fn closed(&self) -> bool {
        self.record.closed@
    }

    /// Opens a queue in which up to `capacity` messages wait.
    pub fn open(capacity: usize) -> (ends: (mpsc::Sender<T>, Mailbox<T>))
        requires
            0 < capacity <= usize::MAX / 8,
        ensures
            queue_halves(capacity, ends.0, ends.1.receiver()),
            ends.1.sender() == ends.0,
            ends.1.capacity() == capacity,
            !ends.1.closed(),
    {
        let (tx, rx) = mpsc::channel(capacity);
        let mailbox = Mailbox {
            rx,
            record: QueueRecord {
                sender: Ghost(tx),
                capacity: Ghost(capacity as nat),
                closed: Ghost(false),
            },
        };
        (tx, mailbox)
    }

    /// `tokio::sync::mpsc::Receiver::close`: gives out no further place in the queue. What waits in
    /// it can still be taken out, and so can what those send who already hold a place. It stays the
    /// end of the queue that it was. That the queue is closed stands in the mailbox from then on; what that does to
    /// later calls on the two ends is not stated.
    #[verifier::external_body]
    pub(crate) fn close(&mut self)
        ensures
            final(self).closed(),
            final(self).sender() == old(self).sender(),
            final(self).capacity() == old(self).capacity(),
            final(self).receiver() == old(self).receiver(),
    {
        self.rx.close()
    }
}

/// The end of a queue from which messages are taken is the receiving half that came of one call
/// with the sending half and the capacity.
pub proof fn law_ends_are_of_one_queue<T>(
    capacity: usize,
    tx: mpsc::Sender<T>,
    mailbox: Mailbox<T>,
)
    ensures
        queue_halves(capacity, tx, mailbox.receiver()) <==> call_ensures(
            mpsc::channel::<T>,
            (capacity,),
            (tx, mailbox.rx),
        ),
{
}

} // verus!
