//! The high-score wire format: one 32-bit integer as four little-endian
//! bytes, no header or versioning.
//!
//! The host's storage layer moves the bytes; the core only encodes and
//! decodes them. A load that yields fewer than four bytes is treated as
//! absent and leaves the high score at its default of zero; a failed save
//! is the host's to ignore.

use vstd::prelude::*;

verus! {

/// The four little-endian bytes of a score.
pub open spec fn score_bytes(v: u32) -> Seq<u8> {
    seq![
        (v % 256) as u8,
        ((v / 256) % 256) as u8,
        ((v / 65536) % 256) as u8,
        ((v / 16777216) % 256) as u8,
    ]
}

/// The score held in the first four bytes of a buffer.
pub open spec fn score_of_bytes(b: Seq<u8>) -> int {
    b[0] + 256 * b[1] + 65536 * b[2] + 16777216 * b[3]
}

/// Encode a score as exactly four little-endian bytes.
pub fn encode_high_score(v: u32) -> (r: Vec<u8>)
    ensures
        r@ == score_bytes(v),
        r@.len() == 4,
{
    let r: Vec<u8> = vec![
        (v % 256) as u8,
        ((v / 256) % 256) as u8,
        ((v / 65536) % 256) as u8,
        ((v / 16777216) % 256) as u8,
    ];
    proof {
        assert(r@ =~= score_bytes(v));
    }
    r
}

/// Decode a stored score: the first four little-endian bytes, or `None`
/// when the buffer is too short (the caller then keeps the default of
/// zero).
pub fn decode_high_score(data: &Vec<u8>) -> (r: Option<u32>)
    ensures
        r == (if data@.len() >= 4 {
            Some(score_of_bytes(data@) as u32)
        } else {
            Option::<u32>::None
        }),
{
    if data.len() >= 4 {
        let b0 = data[0] as u64;
        let b1 = data[1] as u64;
        let b2 = data[2] as u64;
        let b3 = data[3] as u64;
        let v: u64 = b0 + 256 * b1 + 65536 * b2 + 16777216 * b3;
        Some(v as u32)
    } else {
        None
    }
}

/// Round trip: decoding what was encoded yields the score back, exactly.
pub proof fn lemma_score_round_trip(v: u32)
    ensures
        score_of_bytes(score_bytes(v)) == v,
{
    assert(v == (v % 256) + 256 * ((v / 256) % 256) + 65536 * ((v / 65536) % 256) + 16777216 * ((v
        / 16777216) % 256)) by (bit_vector);
}

} // verus!
