//! The record kept for each key image, and its fixed 16-byte encoding.

use vstd::bytes::{
    lemma_auto_spec_u64_to_from_le_bytes, spec_u64_from_le_bytes, spec_u64_to_le_bytes,
    spec_u64_to_le_bytes_to_open,
};
use vstd::prelude::*;

verus! {

/// Number of bytes in an encoded record.
pub const VALUE_SIZE: usize = 16;

/// What the ledger knows about a key image: the block it appeared in and
/// that block's timestamp.
#[derive(Clone, Copy, Debug, PartialEq, Eq, Structural)]
pub struct KeyImageData {
    pub block_index: u64,
    pub timestamp: u64,
}

/// The encoding of a record: `block_index` in bytes `0..8`, `timestamp` in
/// bytes `8..16`, both little-endian.
pub open spec fn encode_spec(record: KeyImageData) -> Seq<u8> {
    spec_u64_to_le_bytes(record.block_index) + spec_u64_to_le_bytes(record.timestamp)
}

/// The record that a 16-byte buffer stands for.
pub open spec fn decode_spec(bytes: Seq<u8>) -> KeyImageData
    recommends
        bytes.len() == VALUE_SIZE,
{
    KeyImageData {
        block_index: spec_u64_from_le_bytes(bytes.subrange(0, 8)),
        timestamp: spec_u64_from_le_bytes(bytes.subrange(8, 16)),
    }
}

/// The record of two zeros, which stands for "nothing stored".
pub open spec fn zero_record() -> KeyImageData {
    KeyImageData { block_index: 0, timestamp: 0 }
}

/// Byte `i` of the little-endian form of `x`.
fn le_byte(x: u64, i: u32) -> (b: u8)
    requires
        i < 8,
    ensures
        b == spec_u64_to_le_bytes(x)[i as int],
{
    proof {
        spec_u64_to_le_bytes_to_open(x);
    }
    let shifted: u64 = x >> (8 * i);
    let low: u64 = shifted & 0xff;
    assert(i == 0 ==> shifted == x) by (bit_vector)
        requires
            shifted == x >> (8 * i),
    ;
    assert(low < 256) by (bit_vector)
        requires
            low == shifted & 0xff,
    ;
    low as u8
}

/// The value whose little-endian form is the eight bytes of `bytes` that
/// start at `at`.
fn le_value(bytes: &[u8; 16], at: usize) -> (x: u64)
    requires
        at == 0 || at == 8,
    ensures
        x == spec_u64_from_le_bytes(bytes@.subrange(at as int, at + 8)),
{
    let b0: u64 = bytes[at] as u64;
    let b1: u64 = bytes[at + 1] as u64;
    let b2: u64 = bytes[at + 2] as u64;
    let b3: u64 = bytes[at + 3] as u64;
    let b4: u64 = bytes[at + 4] as u64;
    let b5: u64 = bytes[at + 5] as u64;
    let b6: u64 = bytes[at + 6] as u64;
    let b7: u64 = bytes[at + 7] as u64;
    let x: u64 = b0 | b1 << 8 | b2 << 16 | b3 << 24 | b4 << 32 | b5 << 40 | b6 << 48 | b7 << 56;
    proof {
        let s = bytes@.subrange(at as int, at + 8);
        assert(b0 == (x & 0xff) && b1 == ((x >> 8) & 0xff) && b2 == ((x >> 16) & 0xff) && b3 == ((x
            >> 24) & 0xff) && b4 == ((x >> 32) & 0xff) && b5 == ((x >> 40) & 0xff) && b6 == ((x
            >> 48) & 0xff) && b7 == ((x >> 56) & 0xff)) by (bit_vector)
            requires
                x == b0 | b1 << 8 | b2 << 16 | b3 << 24 | b4 << 32 | b5 << 40 | b6 << 48 | b7 << 56,
                b0 < 256,
                b1 < 256,
                b2 < 256,
                b3 < 256,
                b4 < 256,
                b5 < 256,
                b6 < 256,
                b7 < 256,
        ;
        spec_u64_to_le_bytes_to_open(x);
        assert(spec_u64_to_le_bytes(x) =~= s);
        lemma_auto_spec_u64_to_from_le_bytes();
    }
    x
}

/// Encodes a record into its 16-byte buffer.
pub fn encode(record: &KeyImageData) -> (bytes: [u8; 16])
    ensures
        bytes@ == encode_spec(*record),
{
    let b: u64 = record.block_index;
    let t: u64 = record.timestamp;
    let bytes: [u8; 16] = [
        le_byte(b, 0),
        le_byte(b, 1),
        le_byte(b, 2),
        le_byte(b, 3),
        le_byte(b, 4),
        le_byte(b, 5),
        le_byte(b, 6),
        le_byte(b, 7),
        le_byte(t, 0),
        le_byte(t, 1),
        le_byte(t, 2),
        le_byte(t, 3),
        le_byte(t, 4),
        le_byte(t, 5),
        le_byte(t, 6),
        le_byte(t, 7),
    ];
    proof {
        lemma_auto_spec_u64_to_from_le_bytes();
        assert(bytes@ =~= encode_spec(*record));
    }
    bytes
}

/// Decodes a 16-byte buffer; every buffer stands for some record.
pub fn decode(bytes: &[u8; 16]) -> (record: KeyImageData)
    ensures
        record == decode_spec(bytes@),
{
    KeyImageData { block_index: le_value(bytes, 0), timestamp: le_value(bytes, 8) }
}

/// Decoding an encoded record gives the record back.
pub proof fn lemma_decode_encode(record: KeyImageData)
    ensures
        encode_spec(record).len() == VALUE_SIZE,
        decode_spec(encode_spec(record)) == record,
{
    lemma_auto_spec_u64_to_from_le_bytes();
    let bytes = encode_spec(record);
    assert(bytes.subrange(0, 8) =~= spec_u64_to_le_bytes(record.block_index));
    assert(bytes.subrange(8, 16) =~= spec_u64_to_le_bytes(record.timestamp));
}

/// A buffer of sixteen zero bytes stands for the zero record.
pub proof fn lemma_decode_zero(bytes: Seq<u8>)
    requires
        bytes.len() == VALUE_SIZE,
        forall|i: int| 0 <= i < bytes.len() ==> bytes[i] == 0,
    ensures
        decode_spec(bytes) == zero_record(),
{
    lemma_auto_spec_u64_to_from_le_bytes();
    spec_u64_to_le_bytes_to_open(0);
    assert((0u64 & 0xff) as u8 == 0 && ((0u64 >> 8) & 0xff) as u8 == 0 && ((0u64 >> 16) & 0xff) as u8
        == 0 && ((0u64 >> 24) & 0xff) as u8 == 0 && ((0u64 >> 32) & 0xff) as u8 == 0 && ((0u64
        >> 40) & 0xff) as u8 == 0 && ((0u64 >> 48) & 0xff) as u8 == 0 && ((0u64 >> 56) & 0xff) as u8
        == 0) by (bit_vector);
    assert(bytes.subrange(0, 8) =~= spec_u64_to_le_bytes(0));
    assert(bytes.subrange(8, 16) =~= spec_u64_to_le_bytes(0));
}

} // verus!
