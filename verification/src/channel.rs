use crate::task::Task;
use crossbeam_channel::{Receiver, Sender, TrySendError};
use vstd::prelude::*;

verus! {

/// The sending side of a bounded crossbeam channel.
#[verifier::external_type_specification]
#[verifier::external_body]
#[verifier::reject_recursive_types(T)]
pub struct ExSender<T>(crossbeam_channel::Sender<T>);

/// The receiving side of a bounded crossbeam channel.
#[verifier::external_type_specification]
#[verifier::external_body]
#[verifier::reject_recursive_types(T)]
pub struct ExReceiver<T>(crossbeam_channel::Receiver<T>);

/// The capacity that the channel of a sender was made with (what
/// `Sender::capacity` reports).
pub uninterp spec fn sender_capacity(s: Sender<Task>) -> Option<usize>;

/// The capacity that the channel of a receiver was made with (what
/// `Receiver::capacity` reports).
pub uninterp spec fn receiver_capacity(r: Receiver<Task>) -> Option<usize>;

/// Which channel a sender belongs to. The contracts here only ever claim
/// that two ends carry the same value where they are ends of one channel
/// (what `Sender::same_channel` and `Receiver::same_channel` report).
pub uninterp spec fn sender_channel(s: Sender<Task>) -> int;

/// Which channel a receiver belongs to (see [`sender_channel`]).
pub uninterp spec fn receiver_channel(r: Receiver<Task>) -> int;

/// A capacity up to which `crossbeam_channel::bounded` does not panic on any
/// target: its index arithmetic (the capacity plus one, rounded up to a power
/// of two, then doubled) fits in its index type, and the byte size of its
/// buffer of task slots (at most 40 bytes each) does not overflow `isize`.
pub const MAX_CHANNEL_CAPACITY: usize = usize::MAX / 128;

/// The proof that a task was sent into a channel: only a successful
/// [`try_send`] makes one, and it records the task's id and the channel.
pub struct SendReceipt {
    id: usize,
    channel: Ghost<int>,
}

impl SendReceipt {
    /// The id of the task that was sent.
    pub closed spec fn sent_id(&self) -> usize {
        self.id
    }

    /// The channel that the task was sent into.
    pub closed spec fn sent_into(&self) -> int {
        self.channel@
    }

    /// The id of the task that was sent.
    pub fn id(&self) -> (id: usize)
        ensures
            id == self.sent_id(),
    {
        self.id
    }
}

/// The proof that a channel refused a task because it was full: only a
/// [`try_send`] that found the channel full makes one, and it records the
/// task's id and the channel.
pub struct Refusal {
    id: usize,
    channel: Ghost<int>,
}

impl Refusal {
    /// The id of the task that was refused.
    pub closed spec fn refused_id(&self) -> usize {
        self.id
    }

    /// The channel that refused the task.
    pub closed spec fn refused_by(&self) -> int {
        self.channel@
    }

    /// The id of the task that was refused.
    pub fn id(&self) -> (id: usize)
        ensures
            id == self.refused_id(),
    {
        self.id
    }
}

/// What a non-blocking send came to.
pub enum SendOutcome {
    /// The task is in the channel.
    Sent(SendReceipt),
    /// The channel is full; the task is handed back with the refusal.
    Full(Task, Refusal),
    /// Every receiver is gone; the task is handed back.
    Disconnected(Task),
}

/// Calls `crossbeam_channel::bounded(cap)`: a new channel that holds at most
/// `cap` tasks (a zero-capacity channel hands a task over only to a receiver
/// that waits at that moment). The contract claims that the sender and the
/// receiver are the two ends of that one channel and both report `cap` as
/// their capacity. `requires` leaves out the capacities for which it
/// panics (see [`MAX_CHANNEL_CAPACITY`]); whether the machine has the memory
/// for the buffer is not stated.
#[verifier::external_body]
pub(crate) fn bounded_channel(cap: usize) -> (r: (Sender<Task>, Receiver<Task>))
    requires
        cap <= MAX_CHANNEL_CAPACITY,
    ensures
        sender_capacity(r.0) == Some(cap),
        receiver_capacity(r.1) == Some(cap),
        sender_channel(r.0) == receiver_channel(r.1),
{
    crossbeam_channel::bounded(cap)
}

/// Calls `Sender::try_send`: sends without blocking. The contract claims
/// that where the send succeeds the receipt names the task's id (`id`) and
/// the sender's channel; that where the channel is full the same task is
/// handed back with a refusal that names the same; and that the channel is
/// not disconnected: `receiver`, a live receiver of the same channel, is
/// borrowed for the call, and a crossbeam channel disconnects only when its
/// last sender or its last receiver is dropped. Whether the channel has room
/// depends on what other threads have taken from it, so `Sent` or `Full` is
/// left open.
#[verifier::external_body]
#[allow(unused_variables)]
pub(crate) fn try_send(sender: &Sender<Task>, task: Task, id: usize, receiver: &Receiver<Task>) -> (r:
    SendOutcome)
    requires
        id == task.task_id(),
        receiver_channel(*receiver) == sender_channel(*sender),
    ensures
        r matches SendOutcome::Sent(rc) ==> rc.sent_id() == id && rc.sent_into() == sender_channel(
            *sender,
        ),
        r matches SendOutcome::Full(t, f) ==> t == task && f.refused_id() == id && f.refused_by()
            == sender_channel(*sender),
        !(r is Disconnected),
{
    let channel = Ghost(sender_channel(*sender));
    match sender.try_send(task) {
        Ok(()) => SendOutcome::Sent(SendReceipt { id, channel }),
        Err(TrySendError::Full(t)) => SendOutcome::Full(t, Refusal { id, channel }),
        Err(TrySendError::Disconnected(t)) => SendOutcome::Disconnected(t),
    }
}

/// Calls `Receiver::clone`: another receiver of the same channel, which
/// therefore reports the same capacity.
#[verifier::external_body]
pub(crate) fn clone_receiver(r: &Receiver<Task>) -> (c: Receiver<Task>)
    ensures
        receiver_capacity(c) == receiver_capacity(*r),
        receiver_channel(c) == receiver_channel(*r),
{
    r.clone()
}

} // verus!
