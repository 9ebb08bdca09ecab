//! Byte layout of the update progress record in non-volatile storage: a tag
//! byte, then the offset and the image length as little-endian `u32`s.
use vstd::prelude::*;
use crate::update::StoredRecord;

verus! {

/// Size of an encoded record.
pub const RECORD_LEN: usize = 9;

/// Tag of a record with no update in progress.
pub const TAG_EMPTY: u8 = 0;

/// Tag of a record of an update in progress.
pub const TAG_IN_PROGRESS: u8 = 1;

/// Tag of a record of an image ready to swap.
pub const TAG_READY: u8 = 2;

/// Little-endian bytes of `x`.
pub open spec fn le_bytes(x: u32) -> Seq<u8> {
    seq![
        (x & 0xff) as u8,
        ((x >> 8u32) & 0xff) as u8,
        ((x >> 16u32) & 0xff) as u8,
        (x >> 24u32) as u8,
    ]
}

/// The value of four little-endian bytes.
pub open spec fn le_value(b0: u8, b1: u8, b2: u8, b3: u8) -> u32 {
    (b0 as u32) | ((b1 as u32) << 8u32) | ((b2 as u32) << 16u32) | ((b3 as u32) << 24u32)
}

/// Encoded form of a record.
pub open spec fn encoding(r: StoredRecord) -> Seq<u8> {
    match r {
        StoredRecord::Empty => seq![TAG_EMPTY] + le_bytes(0) + le_bytes(0),
        StoredRecord::InProgress { offset, len } => seq![TAG_IN_PROGRESS] + le_bytes(offset)
            + le_bytes(len),
        StoredRecord::Ready => seq![TAG_READY] + le_bytes(0) + le_bytes(0),
    }
}

/// Record read back from `b`; bytes of another size or with an unknown tag
/// (erased storage) read as no update in progress.
pub open spec fn decoding(b: Seq<u8>) -> StoredRecord {
    if b.len() != RECORD_LEN {
        StoredRecord::Empty
    } else if b[0] == TAG_IN_PROGRESS {
        StoredRecord::InProgress {
            offset: le_value(b[1], b[2], b[3], b[4]),
            len: le_value(b[5], b[6], b[7], b[8]),
        }
    } else if b[0] == TAG_READY {
        StoredRecord::Ready
    } else {
        StoredRecord::Empty
    }
}

proof fn lemma_le_round_trip(x: u32)
    ensures
        le_value(le_bytes(x)[0], le_bytes(x)[1], le_bytes(x)[2], le_bytes(x)[3]) == x,
{
    assert(((x & 0xff) as u8 as u32) | ((((x >> 8u32) & 0xff) as u8 as u32) << 8u32) | ((((x
        >> 16u32) & 0xff) as u8 as u32) << 16u32) | (((x >> 24u32) as u8 as u32) << 24u32) == x)
        by (bit_vector);
}

/// Reading back what was written gives the record that was written.
pub proof fn lemma_record_round_trip(r: StoredRecord)
    ensures
        decoding(encoding(r)) == r,
{
    match r {
        StoredRecord::InProgress { offset, len } => {
            lemma_le_round_trip(offset);
            lemma_le_round_trip(len);
        },
        _ => {},
    }
}

fn put_le(buf: &mut [u8; 9], at: usize, x: u32)
    requires
        at + 4 <= RECORD_LEN,
    ensures
        final(buf)@ == old(buf)@.take(at as int) + le_bytes(x) + old(buf)@.skip(at + 4),
{
    buf[at] = (x & 0xff) as u8;
    buf[at + 1] = ((x >> 8) & 0xff) as u8;
    buf[at + 2] = ((x >> 16) & 0xff) as u8;
    buf[at + 3] = (x >> 24) as u8;
    assert(buf@ =~= old(buf)@.take(at as int) + le_bytes(x) + old(buf)@.skip(at + 4));
}

/// Encodes a record for storage.
pub fn encode_record(r: StoredRecord) -> (b: [u8; 9])
    ensures
        b@ == encoding(r),
{
    let mut b: [u8; 9] = [0; 9];
    let (tag, offset, len) = match r {
        StoredRecord::Empty => (TAG_EMPTY, 0u32, 0u32),
        StoredRecord::InProgress { offset, len } => (TAG_IN_PROGRESS, offset, len),
        StoredRecord::Ready => (TAG_READY, 0u32, 0u32),
    };
    b[0] = tag;
    put_le(&mut b, 1, offset);
    put_le(&mut b, 5, len);
    assert(b@ =~= encoding(r));
    b
}

/// Decodes a record read from storage.
pub fn decode_record(b: &[u8]) -> (r: StoredRecord)
    ensures
        r == decoding(b@),
{
    if b.len() != RECORD_LEN {
        StoredRecord::Empty
    } else if b[0] == TAG_IN_PROGRESS {
        let offset = (b[1] as u32) | ((b[2] as u32) << 8) | ((b[3] as u32) << 16) | ((b[4] as u32) << 24);
        let len = (b[5] as u32) | ((b[6] as u32) << 8) | ((b[7] as u32) << 16) | ((b[8] as u32) << 24);
        StoredRecord::InProgress { offset, len }
    } else if b[0] == TAG_READY {
        StoredRecord::Ready
    } else {
        StoredRecord::Empty
    }
}

} // verus!
