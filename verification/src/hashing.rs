//! The hash functions of the chain, from `sp-crypto-hashing`.
use vstd::prelude::*;

verus! {

/// The 128-bit xxHash (two 64-bit xxHashes with seeds 0 and 1) of `data`.
pub uninterp spec fn twox_128_hash(data: Seq<u8>) -> Seq<u8>;

/// The 128-bit Blake2b hash of `data`.
pub uninterp spec fn blake2_128_hash(data: Seq<u8>) -> Seq<u8>;

/// The 256-bit Blake2b hash of `data`.
pub uninterp spec fn blake2_256_hash(data: Seq<u8>) -> Seq<u8>;

/// Calls `sp_crypto_hashing::twox_128`.
#[verifier::external_body]
pub(crate) fn twox_128(data: &[u8]) -> (res: [u8; 16])
    ensures
        res@ == twox_128_hash(data@),
{
    sp_crypto_hashing::twox_128(data)
}

/// Calls `sp_crypto_hashing::blake2_128`.
#[verifier::external_body]
pub(crate) fn blake2_128(data: &[u8]) -> (res: [u8; 16])
    ensures
        res@ == blake2_128_hash(data@),
{
    sp_crypto_hashing::blake2_128(data)
}

/// Calls `sp_crypto_hashing::blake2_256`.
#[verifier::external_body]
pub(crate) fn blake2_256(data: &[u8]) -> (res: [u8; 32])
    ensures
        res@ == blake2_256_hash(data@),
{
    sp_crypto_hashing::blake2_256(data)
}

} // verus!
