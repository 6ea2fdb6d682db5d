//! The bounded hand-off queue between producer threads and the dispatcher.
//!
//! The queue is `std::sync::mpsc`'s synchronous channel: internally
//! synchronized, bounded, FIFO, multi-producer and single-consumer. Whether a
//! given send finds space, or a given wait sees a value, depends on the other
//! threads; the contracts here state only what holds of every outcome.

use vstd::prelude::*;

use crate::buffer::Event;

verus! {

#[verifier::external_type_specification]
#[verifier::external_body]
#[verifier::reject_recursive_types(T)]
pub struct ExSyncSender<T>(std::sync::mpsc::SyncSender<T>);

#[verifier::external_type_specification]
#[verifier::external_body]
#[verifier::reject_recursive_types(T)]
pub struct ExReceiver<T>(std::sync::mpsc::Receiver<T>);

/// Relies on std::sync::mpsc::sync_channel: it returns the two endpoints of
/// a fresh bounded channel. Which values later cross it depends on the
/// threads that use it, so nothing is promised of the endpoints.
pub assume_specification<T>[ std::sync::mpsc::sync_channel::<T> ](bound: usize) -> (
    std::sync::mpsc::SyncSender<T>,
    std::sync::mpsc::Receiver<T>,
);

/// What became of a blocking enqueue attempt.
pub enum SendOutcome {
    /// The command was accepted by the queue.
    Sent,
    /// The receiving side is gone; the command is handed back.
    Closed(Event),
}

/// What became of a non-blocking enqueue attempt.
pub enum TrySendOutcome {
    /// The command was accepted by the queue.
    Sent,
    /// The queue was full; the command is handed back.
    Full(Event),
    /// The receiving side is gone; the command is handed back.
    Closed(Event),
}

/// What became of a bounded wait for an acknowledgement.
pub enum AckWait {
    /// The acknowledgement arrived.
    Acked,
    /// The wait elapsed without an acknowledgement.
    TimedOut,
    /// The acknowledging side is gone.
    Closed,
}

/// Relies on std::sync::mpsc::SyncSender::send: it blocks until queue space
/// is available, and fails — handing the value back unchanged — exactly when
/// the receiver has disconnected.
#[verifier::external_body]
pub(crate) fn send_event(
    sender: &std::sync::mpsc::SyncSender<Event>,
    event: Event,
) -> (outcome: SendOutcome)
    ensures
        outcome matches SendOutcome::Closed(rejected) ==> rejected == event,
{
    match sender.send(event) {
        Ok(()) => SendOutcome::Sent,
        Err(std::sync::mpsc::SendError(rejected)) => SendOutcome::Closed(rejected),
    }
}

/// Relies on std::sync::mpsc::SyncSender::try_send: it never blocks, and on
/// failure — a full queue or a disconnected receiver — it hands the value
/// back unchanged.
#[verifier::external_body]
pub(crate) fn try_send_event(
    sender: &std::sync::mpsc::SyncSender<Event>,
    event: Event,
) -> (outcome: TrySendOutcome)
    ensures
        outcome matches TrySendOutcome::Full(rejected) ==> rejected == event,
        outcome matches TrySendOutcome::Closed(rejected) ==> rejected == event,
{
    match sender.try_send(event) {
        Ok(()) => TrySendOutcome::Sent,
        Err(std::sync::mpsc::TrySendError::Full(rejected)) => TrySendOutcome::Full(rejected),
        Err(std::sync::mpsc::TrySendError::Disconnected(rejected)) => TrySendOutcome::Closed(
            rejected,
        ),
    }
}

/// Relies on std::sync::mpsc::Receiver::recv_timeout: it waits for a value
/// for at most the given time. Which outcome comes back depends on the
/// sending thread, so nothing is promised of it.
#[verifier::external_body]
pub(crate) fn wait_ack(receiver: &std::sync::mpsc::Receiver<()>, timeout_ms: u64) -> (outcome:
    AckWait)
{
    match receiver.recv_timeout(std::time::Duration::from_millis(timeout_ms)) {
        Ok(()) => AckWait::Acked,
        Err(std::sync::mpsc::RecvTimeoutError::Timeout) => AckWait::TimedOut,
        Err(std::sync::mpsc::RecvTimeoutError::Disconnected) => AckWait::Closed,
    }
}

} // verus!
