//! The batch buffer and the dispatcher's decisions.
//!
//! A single background dispatcher owns one [`Buffer`]. Each loop iteration it
//! waits on the command queue — with a timeout when an age limit is counting
//! down — and applies the command: a record is appended (and the batch is
//! delivered once the size limit is reached), a flush request or an elapsed
//! age limit delivers the batch at once. A failed delivery keeps every record
//! buffered for the next attempt and only records the error; the error list
//! is handed out for diagnostics once it reaches [`ERROR_THRESHOLD`].
//!
//! The waiting, the receiving and the socket writes belong to the caller's
//! loop; everything the loop decides — what to append, when to deliver, what
//! to retain — is decided here.

use vstd::prelude::*;

use crate::output::{batch_bytes, lemma_batch_bytes_concat};
use crate::record::GelfRecord;
use crate::result::Error;

verus! {

/// A command sent over the hand-off channel.
#[derive(Debug)]
pub enum Event {
    /// Deliver everything buffered so far, bypassing size and age triggers.
    /// The dispatcher signals the carried channel, if any, once the flush
    /// attempt is done.
    Flush(Option<std::sync::mpsc::SyncSender<()>>),
    /// Buffer one record.
    Data(GelfRecord),
}

/// How many consecutive delivery failures are collected before the list is
/// handed out for diagnostic reporting and started afresh.
pub const ERROR_THRESHOLD: usize = 5;

/// Whether a buffer holding `len` records has reached the size limit.
pub open spec fn size_trigger(len: nat, limit: Option<usize>) -> bool {
    limit matches Some(k) && len >= k
}

/// The time the dispatcher may wait for the next command: `None` — wait
/// freely — when no age limit is set or nothing is buffered; otherwise
/// whatever is left of the age limit `d` after `elapsed` milliseconds,
/// bottoming out at zero.
pub open spec fn wait_time(duration: Option<u64>, len: nat, elapsed: u64) -> Option<u64> {
    match duration {
        Option::None => Option::None,
        Option::Some(d) => if len == 0 {
            Option::None
        } else if elapsed >= d {
            Option::Some(0u64)
        } else {
            Option::Some((d - elapsed) as u64)
        },
    }
}

/// What remains buffered after a delivery attempt of the whole buffer: on
/// success the buffer is cleared, on failure every record is retained.
pub open spec fn retained(items: Seq<GelfRecord>, ok: bool) -> Seq<GelfRecord> {
    if ok {
        Seq::empty()
    } else {
        items
    }
}

/// A flush — an explicit request or an elapsed age limit — applied to the
/// model: the whole buffer is handed to the connection, and what stays
/// buffered depends on whether the delivery succeeded.
pub open spec fn flush_step(items: Seq<GelfRecord>, ok: bool) -> (Seq<GelfRecord>, Seq<
    GelfRecord,
>) {
    (retained(items, ok), items)
}

/// A data command applied to the model: the record is appended, and when the
/// size limit is reached the grown batch is handed to the connection, `ok`
/// saying whether that delivery succeeded. The result pairs the new buffer
/// contents with the batch delivered, if any.
pub open spec fn data_step(
    items: Seq<GelfRecord>,
    limit: Option<usize>,
    record: GelfRecord,
    ok: bool,
) -> (Seq<GelfRecord>, Option<Seq<GelfRecord>>) {
    let grown = items.push(record);
    if size_trigger(grown.len(), limit) {
        (retained(grown, ok), Option::Some(grown))
    } else {
        (grown, Option::None)
    }
}

/// A whole run of data commands, every delivery succeeding: the final buffer
/// contents, paired with every batch handed to the connection, in order.
pub open spec fn feed(
    items: Seq<GelfRecord>,
    limit: Option<usize>,
    records: Seq<GelfRecord>,
) -> (Seq<GelfRecord>, Seq<Seq<GelfRecord>>)
    decreases records.len(),
{
    if records.len() == 0 {
        (items, Seq::empty())
    } else {
        let step = data_step(items, limit, records.first(), true);
        let rest = feed(step.0, limit, records.drop_first());
        (
            rest.0,
            match step.1 {
                Option::Some(batch) => seq![batch] + rest.1,
                Option::None => rest.1,
            },
        )
    }
}

/// What the dispatcher must do after applying one command.
pub enum Action {
    /// Nothing to deliver yet: the record was buffered and the size limit is
    /// not reached.
    Buffered,
    /// Deliver the whole batch now; afterwards signal the carried
    /// acknowledgement channel, if any.
    Deliver(Option<std::sync::mpsc::SyncSender<()>>),
}

/// The dispatcher's record buffer: the records of the current batch in
/// submission order, the delivery failures since the last success or
/// diagnostic report, and the configured flush triggers.
#[derive(Debug)]
pub struct Buffer {
    /// The buffered records, in submission order.
    pub items: Vec<GelfRecord>,
    /// The delivery failures collected since the last success or the last
    /// diagnostic report.
    pub errors: Vec<Error>,
    /// The maximum record count before a flush is triggered; `None` means no
    /// size limit.
    pub buffer_size: Option<usize>,
    /// The maximum batch age in milliseconds before a flush is triggered;
    /// `None` means no age limit.
    pub buffer_duration: Option<u64>,
}

impl Buffer {
    /// An empty buffer with the given size and age limits.
    pub fn new(buffer_size: Option<usize>, buffer_duration: Option<u64>) -> (buffer: Buffer)
        ensures
            buffer.items@ == Seq::<GelfRecord>::empty(),
            buffer.errors@ == Seq::<Error>::empty(),
            buffer.buffer_size == buffer_size,
            buffer.buffer_duration == buffer_duration,
    {
        let items: Vec<GelfRecord> = Vec::new();
        let errors: Vec<Error> = Vec::new();
        assert(items@ =~= Seq::<GelfRecord>::empty());
        assert(errors@ =~= Seq::<Error>::empty());
        Buffer { items, errors, buffer_size, buffer_duration }
    }

    /// Appends one record to the batch, in submission order, and says whether
    /// the batch has now reached the size limit and must be delivered.
    pub fn handle_data(&mut self, record: GelfRecord) -> (flush_now: bool)
        ensures
            final(self).items@ == old(self).items@.push(record),
            final(self).errors@ == old(self).errors@,
            final(self).buffer_size == old(self).buffer_size,
            final(self).buffer_duration == old(self).buffer_duration,
            flush_now == size_trigger(final(self).items@.len(), old(self).buffer_size),
    {
        self.items.push(record);
        match self.buffer_size {
            Option::Some(k) => self.items.len() >= k,
            Option::None => false,
        }
    }

    /// Applies one received command and says what the dispatcher must do: a
    /// record is appended — and the batch must be delivered once that reaches
    /// the size limit — while a flush request must be delivered at once,
    /// bypassing the triggers, and its acknowledgement channel signalled
    /// after the delivery attempt. An elapsed age limit is a flush request
    /// without an acknowledgement channel.
    pub fn handle_event(&mut self, event: Event) -> (action: Action)
        ensures
            final(self).errors@ == old(self).errors@,
            final(self).buffer_size == old(self).buffer_size,
            final(self).buffer_duration == old(self).buffer_duration,
            match event {
                Event::Data(record) => final(self).items@ == old(self).items@.push(record) && (
                if size_trigger(final(self).items@.len(), old(self).buffer_size) {
                    action matches Action::Deliver(ack) && ack is None
                } else {
                    action is Buffered
                }),
                Event::Flush(ack) => final(self).items@ == old(self).items@ && (
                action matches Action::Deliver(carried) && carried == ack),
            },
    {
        match event {
            Event::Data(record) => {
                if self.handle_data(record) {
                    Action::Deliver(None)
                } else {
                    Action::Buffered
                }
            },
            Event::Flush(ack) => Action::Deliver(ack),
        }
    }

    /// The time the dispatcher may wait for the next command, given how many
    /// milliseconds the batch has already aged: `None` — wait freely — when
    /// no age limit is set or nothing is buffered, otherwise what is left of
    /// the age limit, bottoming out at zero.
    pub fn time_to_wait(&self, elapsed_ms: u64) -> (wait: Option<u64>)
        ensures
            wait == wait_time(self.buffer_duration, self.items@.len(), elapsed_ms),
    {
        match self.buffer_duration {
            Option::None => Option::None,
            Option::Some(d) => {
                if self.items.len() == 0 {
                    Option::None
                } else if elapsed_ms >= d {
                    Option::Some(0u64)
                } else {
                    Option::Some(d - elapsed_ms)
                }
            },
        }
    }

    /// The records of the current batch, in submission order: what a flush
    /// hands to the connection.
    pub fn pending(&self) -> (records: &Vec<GelfRecord>)
        ensures
            records@ == self.items@,
    {
        &self.items
    }

    /// Records a successful delivery of the whole batch: the buffer is
    /// cleared and the collected failures are forgotten.
    pub fn apply_send_success(&mut self)
        ensures
            final(self).items@ == retained(old(self).items@, true),
            final(self).errors@ == Seq::<Error>::empty(),
            final(self).buffer_size == old(self).buffer_size,
            final(self).buffer_duration == old(self).buffer_duration,
    {
        self.items.clear();
        self.errors.clear();
        assert(self.items@ =~= Seq::<GelfRecord>::empty());
        assert(self.errors@ =~= Seq::<Error>::empty());
    }

    /// Records a failed delivery: every record stays buffered for the next
    /// attempt, and the error is collected. Once [`ERROR_THRESHOLD`] failures
    /// have accumulated, the whole list is handed back for diagnostic
    /// reporting and the collection starts afresh — the records themselves
    /// are retained regardless.
    pub fn apply_send_failure(&mut self, error: Error) -> (diagnostics: Option<Vec<Error>>)
        ensures
            final(self).items@ == retained(old(self).items@, false),
            final(self).buffer_size == old(self).buffer_size,
            final(self).buffer_duration == old(self).buffer_duration,
            old(self).errors@.len() + 1 >= ERROR_THRESHOLD ==> {
                &&& diagnostics matches Some(list) && list@ == old(self).errors@.push(error)
                &&& final(self).errors@ == Seq::<Error>::empty()
            },
            old(self).errors@.len() + 1 < ERROR_THRESHOLD ==> {
                &&& diagnostics is None
                &&& final(self).errors@ == old(self).errors@.push(error)
            },
    {
        self.errors.push(error);
        if self.errors.len() >= ERROR_THRESHOLD {
            let mut list: Vec<Error> = Vec::new();
            std::mem::swap(&mut list, &mut self.errors);
            assert(self.errors@ =~= Seq::<Error>::empty());
            Option::Some(list)
        } else {
            Option::None
        }
    }
}

/// With no size limit set, submitting records never triggers a delivery: the
/// records simply accumulate, in submission order, behind what was already
/// buffered.
pub proof fn lemma_feed_no_limit(items: Seq<GelfRecord>, records: Seq<GelfRecord>)
    ensures
        feed(items, Option::None, records).0 == items + records,
        feed(items, Option::None, records).1 == Seq::<Seq<GelfRecord>>::empty(),
    decreases records.len(),
{
    if records.len() == 0 {
        assert(items + records =~= items);
    } else {
        lemma_feed_no_limit(items.push(records.first()), records.drop_first());
        assert(items.push(records.first()) + records.drop_first() =~= items + records);
    }
}

/// Ordering: records submitted in sequence accumulate in exactly their
/// submission order, and the bytes a flush writes keep that order — at any
/// split point, the batch's bytes are the frames of the earlier records
/// followed by the frames of the later ones.
pub proof fn lemma_ordering(records: Seq<GelfRecord>, split: int, null_character: bool)
    requires
        0 <= split <= records.len(),
    ensures
        feed(Seq::empty(), Option::None, records).0 == records,
        feed(Seq::empty(), Option::None, records).1 == Seq::<Seq<GelfRecord>>::empty(),
        batch_bytes(records, null_character) == batch_bytes(records.take(split), null_character)
            + batch_bytes(records.skip(split), null_character),
{
    lemma_feed_no_limit(Seq::empty(), records);
    assert(Seq::<GelfRecord>::empty() + records =~= records);
    assert(records.take(split) + records.skip(split) =~= records);
    lemma_batch_bytes_concat(records.take(split), records.skip(split), null_character);
}

/// Below the size limit nothing is delivered: as long as the buffered and
/// submitted records together stay under the limit, they only accumulate.
pub proof fn lemma_below_size_limit(items: Seq<GelfRecord>, records: Seq<GelfRecord>, k: usize)
    requires
        items.len() + records.len() < k,
    ensures
        feed(items, Option::Some(k), records).0 == items + records,
        feed(items, Option::Some(k), records).1 == Seq::<Seq<GelfRecord>>::empty(),
    decreases records.len(),
{
    if records.len() == 0 {
        assert(items + records =~= items);
    } else {
        lemma_below_size_limit(items.push(records.first()), records.drop_first(), k);
        assert(items.push(records.first()) + records.drop_first() =~= items + records);
    }
}

/// Size-triggered flush: submitting exactly enough records to reach the size
/// limit `k` triggers exactly one delivery — on the record that reaches the
/// limit, with no explicit flush request — and its batch is all `k` records
/// in submission order; the successful delivery leaves the buffer empty.
pub proof fn lemma_size_triggered_flush(items: Seq<GelfRecord>, records: Seq<GelfRecord>, k: usize)
    requires
        items.len() + records.len() == k,
        records.len() > 0,
    ensures
        feed(items, Option::Some(k), records).0 == Seq::<GelfRecord>::empty(),
        feed(items, Option::Some(k), records).1 == seq![items + records],
    decreases records.len(),
{
    let grown = items.push(records.first());
    if records.len() == 1 {
        assert(size_trigger(grown.len(), Option::Some(k)));
        assert(grown =~= items + records);
        assert(records.drop_first().len() == 0);
        assert(feed(Seq::<GelfRecord>::empty(), Option::Some(k), records.drop_first()).0
            =~= Seq::<GelfRecord>::empty());
        assert(feed(Seq::<GelfRecord>::empty(), Option::Some(k), records.drop_first()).1
            =~= Seq::<Seq<GelfRecord>>::empty());
        assert(seq![grown] + Seq::<Seq<GelfRecord>>::empty() =~= seq![items + records]);
    } else {
        assert(!size_trigger(grown.len(), Option::Some(k)));
        lemma_size_triggered_flush(grown, records.drop_first(), k);
        assert(grown + records.drop_first() =~= items + records);
    }
}

/// Age-triggered flush: with no size limit, submitting one record triggers
/// nothing — it stays buffered — and once the batch has aged past the limit
/// `d` the dispatcher may wait no longer; the timeout flush then hands the
/// connection exactly that one record, and its successful delivery leaves
/// the buffer empty.
pub proof fn lemma_age_triggered_flush(record: GelfRecord, d: u64, elapsed: u64)
    requires
        d <= elapsed,
    ensures
        feed(Seq::empty(), Option::None, seq![record]).0 == seq![record],
        feed(Seq::empty(), Option::None, seq![record]).1 == Seq::<Seq<GelfRecord>>::empty(),
        wait_time(Option::Some(d), 1, elapsed) == Option::Some(0u64),
        flush_step(seq![record], true).1 == seq![record],
        flush_step(seq![record], true).0 == Seq::<GelfRecord>::empty(),
{
    lemma_feed_no_limit(Seq::empty(), seq![record]);
    assert(Seq::<GelfRecord>::empty() + seq![record] =~= seq![record]);
}

/// Retry on failure: a failed delivery retains every record of its batch,
/// and the batch of the next successful flush still carries them — in order,
/// ahead of anything submitted in between — so no record is lost to a
/// transient failure.
pub proof fn lemma_retry_on_failure(buffered: Seq<GelfRecord>, later: Seq<GelfRecord>)
    ensures
        flush_step(buffered, false).0 == buffered,
        feed(flush_step(buffered, false).0, Option::None, later).0 == buffered + later,
        flush_step(buffered + later, true).1 == buffered + later,
        flush_step(buffered + later, true).0 == Seq::<GelfRecord>::empty(),
        (buffered + later).take(buffered.len() as int) == buffered,
{
    lemma_feed_no_limit(buffered, later);
    assert((buffered + later).take(buffered.len() as int) =~= buffered);
}

} // verus!
