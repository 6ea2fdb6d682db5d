//! The front door producer threads hold.
//!
//! A [`BatchProcessor`] filters records by severity and enqueues the rest on
//! the bounded command queue, applying the configured full-buffer policy:
//! `Wait` blocks the calling thread until queue space is available, `Discard`
//! never blocks and reports a full queue instead. It never touches the
//! network itself; everything past the hand-off belongs to the dispatcher.

use vstd::prelude::*;

use crate::buffer::Event;
use crate::channel::{
    send_event, try_send_event, wait_ack, AckWait, SendOutcome, TrySendOutcome,
};
use crate::config::FullBufferPolicy;
use crate::level::{accepts, level_accepts, GelfLevel};
use crate::record::GelfRecord;
use crate::result::Error;

verus! {

/// How long a flush request waits for the dispatcher's acknowledgement
/// before giving up on it, in milliseconds.
pub const FLUSH_ACK_TIMEOUT_MS: u64 = 2000;

/// Asynchronous batch processing of records: what the record sink of this
/// crate offers to producer threads.
pub trait Batch {
    /// Hands one record to the batch processor. Whether and when it is
    /// delivered depends on the configured triggers and policy.
    fn send(&self, record: &GelfRecord) -> Result<(), Error>;

    /// Requests immediate delivery of everything buffered so far.
    fn flush(&self) -> Result<(), Error>;
}

/// A processor that accepts and drops every record: stands in wherever no
/// real processor has been set up.
pub struct NoProcessor;

impl Batch for NoProcessor {
    fn send(&self, _record: &GelfRecord) -> Result<(), Error> {
        Result::Ok(())
    }

    fn flush(&self) -> Result<(), Error> {
        Result::Ok(())
    }
}

/// The result owed for each outcome of a blocking enqueue: only a
/// disconnected queue is an error, and it hands the rejected command back.
pub open spec fn send_outcome_result(outcome: SendOutcome) -> Result<(), Error> {
    match outcome {
        SendOutcome::Sent => Result::Ok(()),
        SendOutcome::Closed(event) => Result::Err(Error::ChannelDisconnectedError(event)),
    }
}

/// The result owed for each outcome of a non-blocking enqueue: a full queue
/// and a disconnected queue are errors, each handing the rejected command
/// back.
pub open spec fn try_send_outcome_result(outcome: TrySendOutcome) -> Result<(), Error> {
    match outcome {
        TrySendOutcome::Sent => Result::Ok(()),
        TrySendOutcome::Full(event) => Result::Err(Error::FullChannelError(event)),
        TrySendOutcome::Closed(event) => Result::Err(Error::ChannelDisconnectedError(event)),
    }
}

/// Turns the outcome of a blocking enqueue into the caller's result.
pub fn classify_send_outcome(outcome: SendOutcome) -> (result: Result<(), Error>)
    ensures
        result == send_outcome_result(outcome),
{
    match outcome {
        SendOutcome::Sent => Result::Ok(()),
        SendOutcome::Closed(event) => Result::Err(Error::ChannelDisconnectedError(event)),
    }
}

/// Turns the outcome of a non-blocking enqueue into the caller's result.
pub fn classify_try_send_outcome(outcome: TrySendOutcome) -> (result: Result<(), Error>)
    ensures
        result == try_send_outcome_result(outcome),
{
    match outcome {
        TrySendOutcome::Sent => Result::Ok(()),
        TrySendOutcome::Full(event) => Result::Err(Error::FullChannelError(event)),
        TrySendOutcome::Closed(event) => Result::Err(Error::ChannelDisconnectedError(event)),
    }
}

/// Whether two records carry the same content: the same level and the same
/// payload bytes. A clone of a record is the same record in this sense.
pub open spec fn same_record(a: GelfRecord, b: GelfRecord) -> bool {
    a.level == b.level && a.payload@ == b.payload@
}

/// What an enqueue attempt of `record` may return: success, or — only for an
/// accepted record — an enqueue error that hands the very command back: a
/// full queue only under the `Discard` policy, a disconnected queue under
/// either.
pub open spec fn enqueue_result_valid(
    policy: FullBufferPolicy,
    record: GelfRecord,
    result: Result<(), Error>,
) -> bool {
    match result {
        Result::Ok(_) => true,
        Result::Err(error) => match error {
            Error::FullChannelError(event) => policy == FullBufferPolicy::Discard && (
            event matches Event::Data(rejected) && same_record(rejected, record)),
            Error::ChannelDisconnectedError(event) => event matches Event::Data(rejected)
                && same_record(rejected, record),
            _ => false,
        },
    }
}

/// The object producer threads hold: the sending end of the command queue,
/// the severity threshold, and the full-buffer policy.
pub struct BatchProcessor {
    /// The sending end of the command queue to the dispatcher.
    pub tx: std::sync::mpsc::SyncSender<Event>,
    /// The severity threshold: less severe records are dropped here, before
    /// they reach the queue.
    pub level: GelfLevel,
    /// The policy applied when the command queue is full.
    pub full_buffer_policy: FullBufferPolicy,
}

impl BatchProcessor {
    /// Builds a processor around the sending end of the command queue.
    pub fn new(
        tx: std::sync::mpsc::SyncSender<Event>,
        level: GelfLevel,
        full_buffer_policy: FullBufferPolicy,
    ) -> (processor: BatchProcessor)
        ensures
            processor.level == level,
            processor.full_buffer_policy == full_buffer_policy,
    {
        BatchProcessor { tx, level, full_buffer_policy }
    }

    /// Hands one record to the dispatcher. A record less severe than the
    /// threshold is dropped silently — it never takes up queue capacity.
    /// Otherwise a copy of it is enqueued: under `Wait` the call blocks until
    /// there is queue space and fails only when the dispatcher is gone; under
    /// `Discard` the call never blocks and reports a full queue instead,
    /// dropping the record.
    pub fn send(&self, record: &GelfRecord) -> (result: Result<(), Error>)
        ensures
            !level_accepts(self.level, record.level) ==> result is Ok,
            enqueue_result_valid(self.full_buffer_policy, *record, result),
            result matches Err(error) ==> (error matches Error::FullChannelError(_) ==> self
                .full_buffer_policy == FullBufferPolicy::Discard),
    {
        if !accepts(self.level, record.level) {
            return Result::Ok(());
        }
        match self.full_buffer_policy {
            FullBufferPolicy::Wait => classify_send_outcome(
                send_event(&self.tx, Event::Data(record.clone())),
            ),
            FullBufferPolicy::Discard => classify_try_send_outcome(
                try_send_event(&self.tx, Event::Data(record.clone())),
            ),
        }
    }

    /// Requests immediate delivery of everything buffered so far, then waits
    /// for the dispatcher's acknowledgement, up to a fixed ceiling. It fails
    /// only when the dispatcher is gone, handing the flush command back.
    pub fn flush(&self) -> (result: Result<(), Error>)
        ensures
            result matches Err(error) ==> error matches Error::ChannelDisconnectedError(event)
                && event is Flush,
    {
        let (ack_tx, ack_rx) = std::sync::mpsc::sync_channel::<()>(1);
        match send_event(&self.tx, Event::Flush(Some(ack_tx))) {
            SendOutcome::Sent => {
                let _outcome: AckWait = wait_ack(&ack_rx, FLUSH_ACK_TIMEOUT_MS);
                Result::Ok(())
            },
            SendOutcome::Closed(event) => Result::Err(Error::ChannelDisconnectedError(event)),
        }
    }
}

impl Batch for BatchProcessor {
    fn send(&self, record: &GelfRecord) -> Result<(), Error> {
        BatchProcessor::send(self, record)
    }

    fn flush(&self) -> Result<(), Error> {
        BatchProcessor::flush(self)
    }
}

/// Requests immediate delivery of everything the given processor's
/// dispatcher holds buffered, waiting as [`BatchProcessor::flush`] does. It
/// can be useful to flush just before program exit.
pub fn flush(processor: &BatchProcessor) -> (result: Result<(), Error>)
    ensures
        result matches Err(error) ==> error matches Error::ChannelDisconnectedError(event)
            && event is Flush,
{
    processor.flush()
}

} // verus!
