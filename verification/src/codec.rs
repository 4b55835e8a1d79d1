//! The account-data layout of the counter payload: a `u32` as four
//! little-endian bytes.

use vstd::prelude::*;

verus! {

/// The four little-endian bytes encoding `n`.
pub open spec fn le_bytes_of(n: u32) -> Seq<u8> {
    seq![n as u8, (n >> 8) as u8, (n >> 16) as u8, (n >> 24) as u8]
}

/// The `u32` read from four little-endian bytes.
pub open spec fn le_value_of(d: Seq<u8>) -> u32
    recommends
        d.len() == 4,
{
    (d[0] as u32) | ((d[1] as u32) << 8) | ((d[2] as u32) << 16) | ((d[3] as u32) << 24)
}

/// Encodes a counter value into its account-data bytes.
pub fn encode_count(n: u32) -> (r: Vec<u8>)
    ensures
        r@ == le_bytes_of(n),
        r@.len() == 4,
{
    let b0: u8 = n as u8;
    let b1: u8 = (n >> 8) as u8;
    let b2: u8 = (n >> 16) as u8;
    let b3: u8 = (n >> 24) as u8;
    let out: Vec<u8> = vec![b0, b1, b2, b3];
    assert(out@ =~= le_bytes_of(n));
    out
}

/// Decodes a counter value from its account-data bytes.
pub fn decode_count(d: &Vec<u8>) -> (r: u32)
    requires
        d@.len() == 4,
    ensures
        r == le_value_of(d@),
{
    let b0 = d[0];
    let b1 = d[1];
    let b2 = d[2];
    let b3 = d[3];
    (b0 as u32) | ((b1 as u32) << 8) | ((b2 as u32) << 16) | ((b3 as u32) << 24)
}

/// Decoding inverts encoding: the bytes of a counter value read back as
/// that value.
pub proof fn lemma_codec_round_trip(n: u32)
    ensures
        le_value_of(le_bytes_of(n)) == n,
{
    let s = le_bytes_of(n);
    assert(s[0] == n as u8 && s[1] == (n >> 8) as u8 && s[2] == (n >> 16) as u8 && s[3] == (n
        >> 24) as u8);
    assert((n as u8 as u32) | (((n >> 8) as u8 as u32) << 8) | (((n >> 16) as u8 as u32) << 16) | ((
    (n >> 24) as u8 as u32) << 24) == n) by (bit_vector);
}

} // verus!
