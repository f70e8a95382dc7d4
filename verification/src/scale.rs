//! The SCALE encodings that the transaction logic relies on, taken from the
//! `parity-scale-codec` crate and stated exactly.
use vstd::prelude::*;
use parity_scale_codec::{Compact, Decode, Encode};

verus! {

/// The `k` least significant bytes of `v`, least significant first.
pub open spec fn le_bytes(v: nat, k: nat) -> Seq<u8>
    decreases k,
{
    if k == 0 {
        Seq::empty()
    } else {
        seq![(v % 256) as u8] + le_bytes(v / 256, (k - 1) as nat)
    }
}

/// The number of bytes needed to write `v` without leading zero bytes.
pub open spec fn byte_len(v: nat) -> nat
    decreases v,
{
    if v == 0 {
        0
    } else {
        1 + byte_len(v / 256)
    }
}

/// The SCALE compact encoding of the integer `v`: one, two or four bytes whose two
/// low bits give the mode, or a length byte followed by the minimal little-endian bytes.
pub open spec fn compact_encoding(v: nat) -> Seq<u8> {
    if v < 0x40 {
        seq![(v * 4) as u8]
    } else if v < 0x4000 {
        le_bytes(v * 4 + 1, 2)
    } else if v < 0x4000_0000 {
        le_bytes(v * 4 + 2, 4)
    } else {
        seq![(((byte_len(v) - 4) * 4) + 3) as u8] + le_bytes(v, byte_len(v))
    }
}

/// `p` is the beginning of `s`.
pub open spec fn is_prefix_of(p: Seq<u8>, s: Seq<u8>) -> bool {
    p.len() <= s.len() && s.take(p.len() as int) == p
}

/// The SCALE encoding of an optional `u32`: a tag byte, then the value if there is one.
pub open spec fn option_u32_encoding(v: Option<u32>) -> Seq<u8> {
    match v {
        None => seq![0u8],
        Some(x) => seq![1u8] + le_bytes(x as nat, 4),
    }
}

/// Calls `Encode::encode` of `parity_scale_codec::Compact<u32>`: the compact encoding of `v`.
#[verifier::external_body]
pub(crate) fn encode_compact_u32(v: u32) -> (res: Vec<u8>)
    ensures
        res@ == compact_encoding(v as nat),
{
    Compact(v).encode()
}

/// Calls `Encode::encode` of `parity_scale_codec::Compact<u128>`: the compact encoding of `v`.
#[verifier::external_body]
pub(crate) fn encode_compact_u128(v: u128) -> (res: Vec<u8>)
    ensures
        res@ == compact_encoding(v as nat),
{
    Compact(v).encode()
}

/// Calls `Decode::decode` of `parity_scale_codec::Compact<u32>` on `bytes`. It reads the
/// canonical compact encoding of a `u32` at the start of `bytes` and fails on anything else.
#[verifier::external_body]
pub(crate) fn decode_compact_u32(bytes: &[u8]) -> (res: Option<u32>)
    ensures
        res matches Some(v) ==> is_prefix_of(compact_encoding(v as nat), bytes@),
        forall|v: u32| #[trigger]
            is_prefix_of(compact_encoding(v as nat), bytes@) ==> res == Some(v),
{
    match Compact::<u32>::decode(&mut &bytes[..]) {
        Ok(c) => Some(c.0),
        Err(_) => None,
    }
}

/// Calls `Decode::decode` of `parity_scale_codec::Compact<u128>` on `bytes`. It reads the
/// canonical compact encoding of a `u128` at the start of `bytes` and fails on anything else.
#[verifier::external_body]
pub(crate) fn decode_compact_u128(bytes: &[u8]) -> (res: Option<u128>)
    ensures
        res matches Some(v) ==> is_prefix_of(compact_encoding(v as nat), bytes@),
        forall|v: u128| #[trigger]
            is_prefix_of(compact_encoding(v as nat), bytes@) ==> res == Some(v),
{
    match Compact::<u128>::decode(&mut &bytes[..]) {
        Ok(c) => Some(c.0),
        Err(_) => None,
    }
}

/// Calls `Encode::encode` of `u32`: its four little-endian bytes.
#[verifier::external_body]
pub(crate) fn encode_u32(v: u32) -> (res: Vec<u8>)
    ensures
        res@ == le_bytes(v as nat, 4),
{
    v.encode()
}

/// Calls `Encode::encode` of `Option<u32>`: a tag byte, then the value if there is one.
#[verifier::external_body]
pub(crate) fn encode_option_u32(v: Option<u32>) -> (res: Vec<u8>)
    ensures
        res@ == option_u32_encoding(v),
{
    v.encode()
}

} // verus!
