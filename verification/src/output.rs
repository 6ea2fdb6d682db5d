//! Wire framing of records.
//!
//! Each record becomes one newline-terminated payload on the stream, with an
//! optional trailing NUL byte (`\0`) per record, as some collector backends
//! require. There is no other framing: a batch is the concatenation of its
//! records' frames, in buffer order.

use vstd::prelude::*;

use crate::record::GelfRecord;

verus! {

/// The frame of one record: its payload, a newline, and a NUL byte when
/// `null_character` is set.
pub open spec fn frame_bytes(record: GelfRecord, null_character: bool) -> Seq<u8> {
    if null_character {
        record.payload@ + seq![10u8, 0u8]
    } else {
        record.payload@ + seq![10u8]
    }
}

/// The bytes of a whole batch: the frames of its records, concatenated in
/// order.
pub open spec fn batch_bytes(records: Seq<GelfRecord>, null_character: bool) -> Seq<u8>
    decreases records.len(),
{
    if records.len() == 0 {
        Seq::empty()
    } else {
        frame_bytes(records.first(), null_character) + batch_bytes(
            records.drop_first(),
            null_character,
        )
    }
}

/// Batch encoding distributes over concatenation: delivering two groups of
/// records one after the other writes the same bytes as delivering them as
/// one batch. In particular the frames of earlier records always precede the
/// frames of later ones.
pub proof fn lemma_batch_bytes_concat(
    left: Seq<GelfRecord>,
    right: Seq<GelfRecord>,
    null_character: bool,
)
    ensures
        batch_bytes(left + right, null_character) == batch_bytes(left, null_character)
            + batch_bytes(right, null_character),
    decreases left.len(),
{
    if left.len() == 0 {
        assert(left + right =~= right);
        assert(batch_bytes(left, null_character) + batch_bytes(right, null_character)
            =~= batch_bytes(right, null_character));
    } else {
        assert((left + right).drop_first() =~= left.drop_first() + right);
        lemma_batch_bytes_concat(left.drop_first(), right, null_character);
        assert(batch_bytes(left + right, null_character) =~= batch_bytes(left, null_character)
            + batch_bytes(right, null_character));
    }
}

/// The frame of one appended record extends the batch's bytes at the end.
pub proof fn lemma_batch_bytes_push(
    records: Seq<GelfRecord>,
    record: GelfRecord,
    null_character: bool,
)
    ensures
        batch_bytes(records.push(record), null_character) == batch_bytes(records, null_character)
            + frame_bytes(record, null_character),
{
    assert(records.push(record) =~= records + seq![record]);
    lemma_batch_bytes_concat(records, seq![record], null_character);
    let single = seq![record];
    assert(single.drop_first() =~= Seq::<GelfRecord>::empty());
    assert(batch_bytes(single.drop_first(), null_character) == Seq::<u8>::empty());
    assert(batch_bytes(single, null_character) =~= frame_bytes(record, null_character));
}

/// Appends the frame of `record` to `out`: the payload, a newline, and a NUL
/// byte when `null_character` is set.
pub fn frame_record(out: &mut Vec<u8>, record: &GelfRecord, null_character: bool)
    ensures
        final(out)@ == old(out)@ + frame_bytes(*record, null_character),
{
    let mut i: usize = 0;
    let len = record.payload.len();
    while i < len
        invariant
            i <= len,
            len == record.payload@.len(),
            out@ == old(out)@ + record.payload@.subrange(0, i as int),
        decreases len - i,
    {
        let byte = record.payload[i];
        out.push(byte);
        i = i + 1;
        assert(out@ =~= old(out)@ + record.payload@.subrange(0, i as int));
    }
    assert(record.payload@.subrange(0, len as int) =~= record.payload@);
    out.push(10u8);
    if null_character {
        out.push(0u8);
        assert(out@ =~= old(out)@ + frame_bytes(*record, true));
    } else {
        assert(out@ =~= old(out)@ + frame_bytes(*record, false));
    }
}

/// Encodes a whole batch: the frames of all records, concatenated in order.
pub fn encode_batch(records: &Vec<GelfRecord>, null_character: bool) -> (bytes: Vec<u8>)
    ensures
        bytes@ == batch_bytes(records@, null_character),
{
    let mut bytes: Vec<u8> = Vec::new();
    let mut i: usize = 0;
    let len = records.len();
    while i < len
        invariant
            i <= len,
            len == records@.len(),
            bytes@ == batch_bytes(records@.subrange(0, i as int), null_character),
        decreases len - i,
    {
        frame_record(&mut bytes, &records[i], null_character);
        i = i + 1;
        proof {
            assert(records@.subrange(0, i as int) =~= records@.subrange(0, i - 1).push(
                records@[i - 1],
            ));
            lemma_batch_bytes_push(records@.subrange(0, i - 1), records@[i - 1], null_character);
        }
    }
    assert(records@.subrange(0, len as int) =~= records@);
    bytes
}

/// The frames of a batch, one per record, in order: what a sender that
/// writes record by record hands to the stream. A batch is a sequence of
/// independent writes, so a mid-batch failure aborts the remaining writes;
/// the bytes written up to any point are exactly the earlier records'
/// frames, in order.
pub fn frame_batch(records: &Vec<GelfRecord>, null_character: bool) -> (frames: Vec<Vec<u8>>)
    ensures
        frames@.len() == records@.len(),
        forall|i: int|
            0 <= i < records@.len() ==> frames@[i]@ == frame_bytes(records@[i], null_character),
{
    let mut frames: Vec<Vec<u8>> = Vec::new();
    let mut i: usize = 0;
    let len = records.len();
    while i < len
        invariant
            i <= len,
            len == records@.len(),
            frames@.len() == i,
            forall|j: int|
                0 <= j < i ==> frames@[j]@ == frame_bytes(records@[j], null_character),
        decreases len - i,
    {
        let mut frame: Vec<u8> = Vec::new();
        frame_record(&mut frame, &records[i], null_character);
        assert(frame@ =~= frame_bytes(records@[i as int], null_character));
        frames.push(frame);
        i = i + 1;
    }
    frames
}

} // verus!
