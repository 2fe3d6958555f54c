//! The persisted form of a ledger balance: a fixed-width (16-byte) big-endian
//! unsigned integer. Decoding a value of any other width reports
//! [`Error::CorruptedData`].

use vstd::prelude::*;
use vstd::bytes::{
    lemma_auto_spec_u128_to_from_le_bytes, spec_u128_from_le_bytes, spec_u128_to_le_bytes,
    u128_from_le_bytes, u128_to_le_bytes,
};

use crate::error::Error;

verus! {

/// Number of bytes in the stored form of a balance.
pub const BALANCE_WIDTH: usize = 16;

/// The 16 big-endian bytes that represent the balance `x`.
pub open spec fn spec_encode_balance(x: u128) -> Seq<u8> {
    spec_u128_to_le_bytes(x).reverse()
}

/// The balance represented by the 16 big-endian bytes `s`.
pub open spec fn spec_decode_balance(s: Seq<u8>) -> u128
    recommends
        s.len() == 16,
{
    spec_u128_from_le_bytes(s.reverse())
}

/// Encodes a balance into its stored form: 16 bytes, most significant first.
pub fn encode_balance(x: u128) -> (r: Vec<u8>)
    ensures
        r@ == spec_encode_balance(x),
        r@.len() == 16,
{
    proof {
        lemma_auto_spec_u128_to_from_le_bytes();
    }
    let le = u128_to_le_bytes(x);
    let mut out: Vec<u8> = Vec::new();
    let mut i: usize = 0;
    while i < 16
        invariant
            le@ == spec_u128_to_le_bytes(x),
            le@.len() == 16,
            i <= 16,
            out@.len() == i,
            forall|j: int| 0 <= j < i ==> out@[j] == le@[15 - j],
        decreases 16 - i,
    {
        out.push(le[15 - i]);
        i = i + 1;
    }
    proof {
        assert(out@ =~= spec_u128_to_le_bytes(x).reverse());
    }
    out
}

/// Decodes a stored balance. Succeeds exactly on values of the fixed width;
/// anything else is corrupted data.
pub fn decode_balance(b: &Vec<u8>) -> (r: Result<u128, Error>)
    ensures
        b@.len() == 16 ==> r == Ok::<u128, Error>(spec_decode_balance(b@)),
        b@.len() != 16 ==> r == Err::<u128, Error>(Error::CorruptedData),
{
    if b.len() != BALANCE_WIDTH {
        return Err(Error::CorruptedData);
    }
    let mut rev: Vec<u8> = Vec::new();
    let mut i: usize = 0;
    while i < 16
        invariant
            b@.len() == 16,
            i <= 16,
            rev@.len() == i,
            forall|j: int| 0 <= j < i ==> rev@[j] == b@[15 - j],
        decreases 16 - i,
    {
        rev.push(b[15 - i]);
        i = i + 1;
    }
    proof {
        assert(rev@ =~= b@.reverse());
    }
    Ok(u128_from_le_bytes(rev.as_slice()))
}

/// Law: encoding and decoding are mutually inverse. Every balance round-trips
/// through its 16-byte stored form, and every 16-byte value is the stored form
/// of exactly the balance it decodes to.
pub proof fn lemma_balance_codec_roundtrip(x: u128, s: Seq<u8>)
    requires
        s.len() == 16,
    ensures
        spec_encode_balance(x).len() == 16,
        spec_decode_balance(spec_encode_balance(x)) == x,
        spec_encode_balance(spec_decode_balance(s)) == s,
{
    lemma_auto_spec_u128_to_from_le_bytes();
    assert(spec_u128_to_le_bytes(x).reverse().reverse() =~= spec_u128_to_le_bytes(x));
    assert(s.reverse().len() == 16);
    assert(spec_u128_to_le_bytes(spec_u128_from_le_bytes(s.reverse())).reverse() =~= s);
}

} // verus!
