//! Transaction eras: how long a signed transaction stays valid, and how that is encoded
//! into what is signed. The era arithmetic is that of `sp_runtime::generic::Era`.
use vstd::prelude::*;
use parity_scale_codec::Encode;
use crate::scale::le_bytes;

verus! {

/// The longevity of a transaction (the shape of `sp_runtime::generic::Era`).
#[derive(Clone, Copy, Debug)]
pub enum Era {
    /// Valid forever.
    Immortal,
    /// Valid for `period` blocks from the block whose number is `phase` modulo `period`.
    Mortal { period: u64, phase: u64 },
}

/// Two to the power `k`.
pub open spec fn two_pow(k: nat) -> nat
    decreases k,
{
    if k == 0 {
        1
    } else {
        2 * two_pow((k - 1) as nat)
    }
}

/// The exponent of the era period asked for as `period`: the smallest exponent from `k`
/// on whose power of two reaches `period`, and never more than 16.
pub open spec fn era_exponent(period: u64, k: nat) -> nat
    decreases 16 - k,
{
    if k >= 16 || two_pow(k) >= period {
        k
    } else {
        era_exponent(period, k + 1)
    }
}

/// The factor by which the phase of an era whose period is two to the `k` is rounded down.
pub open spec fn quantize_factor(k: nat) -> nat {
    if k > 12 {
        two_pow((k - 12) as nat)
    } else {
        1
    }
}

/// `Era::mortal(period, current)`: the period rounded up to a power of two between 4
/// and 65536, and the phase of `current` in it rounded down to the quantize factor.
pub open spec fn spec_mortal_era(period: u64, current: u64) -> Era {
    let k = era_exponent(period, 2);
    let p = two_pow(k);
    let q = quantize_factor(k);
    Era::Mortal { period: p as u64, phase: ((current as nat % p) / q * q) as u64 }
}

/// The exponent of a power of two.
pub open spec fn log2(p: nat) -> nat
    decreases p,
{
    if p <= 1 {
        0
    } else {
        1 + log2(p / 2)
    }
}

/// An era that `Era::mortal` can make: an immortal one, or a power-of-two period between
/// 4 and 65536 with a phase inside it.
pub open spec fn era_wf(era: Era) -> bool {
    match era {
        Era::Immortal => true,
        Era::Mortal { period, phase } => {
            &&& 2 <= log2(period as nat) <= 16
            &&& two_pow(log2(period as nat)) == period
            &&& phase < period
        },
    }
}

/// An era that `Encode for Era` encodes without fault: an immortal one, or a mortal one
/// whose period is even (a zero period counts as even).
pub open spec fn era_encodable(era: Era) -> bool {
    match era {
        Era::Immortal => true,
        Era::Mortal { period, .. } => period % 2 == 0,
    }
}

/// The number of trailing zero bits of a 64-bit word (64 for zero).
pub open spec fn trailing_zeros(p: nat) -> nat
    decreases p,
{
    if p == 0 {
        64
    } else if p % 2 == 1 {
        0
    } else {
        1 + trailing_zeros(p / 2)
    }
}

/// `v` held between `lo` and `hi`.
pub open spec fn clamp(v: int, lo: int, hi: int) -> int {
    if v < lo {
        lo
    } else if v > hi {
        hi
    } else {
        v
    }
}

/// The factor by which the phase of an era of `period` blocks is divided when it is
/// encoded: the period over 4096, and at least 1.
pub open spec fn encoding_quantize_factor(period: nat) -> nat {
    if period / 4096 == 0 {
        1
    } else {
        period / 4096
    }
}

/// The SCALE encoding of an era: a zero byte for an immortal one; for a mortal one two
/// little-endian bytes holding the period's trailing zero count less one, held between 1
/// and 15, in the low four bits and the quantized phase above them, cut to 16 bits.
pub open spec fn era_encoding(era: Era) -> Seq<u8> {
    match era {
        Era::Immortal => seq![0u8],
        Era::Mortal { period, phase } => {
            let low = clamp(trailing_zeros(period as nat) - 1, 1, 15);
            let high = (16 * (phase as nat / encoding_quantize_factor(period as nat))) % 65536;
            le_bytes((low + high) as nat, 2)
        },
    }
}

/// Calls `sp_runtime::generic::Era::mortal`: the era of `period` blocks that holds block
/// `current`.
#[verifier::external_body]
fn era_mortal(period: u64, current: u64) -> (res: Era)
    ensures
        res == spec_mortal_era(period, current),
{
    match sp_runtime::generic::Era::mortal(period, current) {
        sp_runtime::generic::Era::Immortal => Era::Immortal,
        sp_runtime::generic::Era::Mortal(period, phase) => Era::Mortal { period, phase },
    }
}

/// Calls `Encode::encode` of `sp_runtime::generic::Era`.
#[verifier::external_body]
pub(crate) fn encode_era(era: &Era) -> (res: Vec<u8>)
    requires
        era_encodable(*era),
    ensures
        res@ == era_encoding(*era),
{
    let outside = match era {
        Era::Immortal => sp_runtime::generic::Era::Immortal,
        Era::Mortal { period, phase } => sp_runtime::generic::Era::Mortal(*period, *phase),
    };
    outside.encode()
}

proof fn lemma_log2_two_pow(k: nat)
    ensures
        log2(two_pow(k)) == k,
        two_pow(k) >= 1,
    decreases k,
{
    if k > 0 {
        lemma_log2_two_pow((k - 1) as nat);
        assert(two_pow(k) / 2 == two_pow((k - 1) as nat));
    }
}

proof fn lemma_era_exponent_bounds(period: u64, k: nat)
    requires
        2 <= k <= 16,
    ensures
        k <= era_exponent(period, k) <= 16,
    decreases 16 - k,
{
    if !(k >= 16 || two_pow(k) >= period) {
        lemma_era_exponent_bounds(period, k + 1);
    }
}

proof fn lemma_two_pow_monotone(a: nat, b: nat)
    requires
        a <= b,
    ensures
        two_pow(a) <= two_pow(b),
    decreases b,
{
    if a < b {
        lemma_two_pow_monotone(a, (b - 1) as nat);
    }
}

proof fn lemma_two_pow_even(k: nat)
    requires
        k >= 1,
    ensures
        two_pow(k) % 2 == 0,
{
    assert(two_pow(k) == 2 * two_pow((k - 1) as nat));
}

/// A well-formed era can be encoded.
pub proof fn lemma_wf_era_encodable(era: Era)
    requires
        era_wf(era),
    ensures
        era_encodable(era),
{
    if let Era::Mortal { period, .. } = era {
        lemma_two_pow_even(log2(period as nat));
    }
}

/// An era that `Era::mortal` makes is well formed.
pub proof fn lemma_mortal_era_wf(period: u64, current: u64)
    ensures
        era_wf(spec_mortal_era(period, current)),
{
    let k = era_exponent(period, 2);
    lemma_era_exponent_bounds(period, 2);
    lemma_log2_two_pow(k);
    lemma_two_pow_monotone(k, 16);
    assert(two_pow(16) == 65536) by {
        reveal_with_fuel(two_pow, 17);
    }
    let p = two_pow(k);
    let q = quantize_factor(k);
    lemma_log2_two_pow((k - 12) as nat);
    assert(q >= 1);
    let r = current as nat % p;
    assert(r < p);
    assert(r / q * q <= r) by (nonlinear_arith)
        requires
            q >= 1,
    ;
}

/// The longevity asked for a transaction to be signed: forever, or `period` blocks from
/// the block `block_number` whose hash is `block_hash`.
#[derive(Clone, Copy, Debug)]
pub enum TransactionEra {
    Immortal,
    Mortal { block_number: u32, block_hash: [u8; 32], period: u32 },
}

/// The era that a transaction of longevity `era` carries.
pub open spec fn spec_frame_era(era: TransactionEra) -> Era {
    match era {
        TransactionEra::Immortal => Era::Immortal,
        TransactionEra::Mortal { block_number, period, .. } => spec_mortal_era(
            period as u64,
            block_number as u64,
        ),
    }
}

/// The block hash that a transaction of longevity `era` signs: the genesis hash for an
/// immortal one, the hash of its first block for a mortal one.
pub open spec fn spec_era_block_hash(era: TransactionEra, genesis_hash: [u8; 32]) -> [u8; 32] {
    match era {
        TransactionEra::Immortal => genesis_hash,
        TransactionEra::Mortal { block_hash, .. } => block_hash,
    }
}

impl TransactionEra {
    /// A transaction that is valid forever.
    pub fn immortal() -> (res: TransactionEra)
        ensures
            res == TransactionEra::Immortal,
    {
        TransactionEra::Immortal
    }

    /// The era of a transaction of this longevity.
    pub fn frame_era(&self) -> (res: Era)
        ensures
            res == spec_frame_era(*self),
            era_wf(res),
            era_encodable(res),
    {
        match self {
            TransactionEra::Immortal => Era::Immortal,
            TransactionEra::Mortal { block_number, period, .. } => {
                proof {
                    lemma_mortal_era_wf(*period as u64, *block_number as u64);
                    lemma_wf_era_encodable(spec_mortal_era(*period as u64, *block_number as u64));
                }
                era_mortal(*period as u64, *block_number as u64)
            },
        }
    }

    /// The block hash that a transaction of this longevity signs.
    pub fn signed_payload(&self, genesis_hash: [u8; 32]) -> (res: [u8; 32])
        ensures
            res == spec_era_block_hash(*self, genesis_hash),
    {
        match self {
            TransactionEra::Immortal => genesis_hash,
            TransactionEra::Mortal { block_hash, .. } => *block_hash,
        }
    }
}

} // verus!
