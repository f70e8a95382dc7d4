//! The Millau chain as seen by the relay: how its transactions are signed, recognised
//! and read back, and where its accounts are stored.
use vstd::prelude::*;
use crate::era::{era_encodable, era_encoding, encode_era, spec_era_block_hash, spec_frame_era, Era, TransactionEra};
use crate::hashing::{blake2_128, blake2_128_hash, blake2_256, blake2_256_hash, twox_128, twox_128_hash};
use crate::scale::{
    compact_encoding, decode_compact_u128, decode_compact_u32, encode_compact_u128,
    encode_compact_u32, encode_option_u32, encode_u32, is_prefix_of, le_bytes,
    option_u32_encoding,
};
use crate::sr25519::{sr25519_public_key, sr25519_signature_valid, Sr25519Pair};

verus! {

broadcast use vstd::array::group_array_axioms;

/// Signed payloads longer than this are hashed before they are signed.
pub const MAX_UNHASHED_PAYLOAD: usize = 256;

/// Appends the bytes of `src` to `dst`.
pub fn push_bytes(dst: &mut Vec<u8>, src: &[u8])
    ensures
        final(dst)@ == old(dst)@ + src@,
{
    let ghost start = dst@;
    let mut i: usize = 0;
    while i < src.len()
        invariant
            i <= src@.len(),
            dst@ == start + src@.take(i as int),
        decreases src@.len() - i,
    {
        dst.push(src[i]);
        i = i + 1;
        assert(start + src@.take(i as int) =~= (start + src@.take(i - 1)).push(src@[i - 1]));
    }
    assert(src@.take(src@.len() as int) =~= src@);
}

/// A transaction before it is signed: the encoded call, the sender's nonce and the tip.
#[derive(Clone, Debug, PartialEq, Eq)]
pub struct UnsignedTransaction {
    pub call: Vec<u8>,
    pub nonce: u32,
    pub tip: u128,
}

/// What an unsigned transaction holds.
pub struct UnsignedView {
    pub call: Seq<u8>,
    pub nonce: u32,
    pub tip: u128,
}

impl View for UnsignedTransaction {
    type V = UnsignedView;

    open spec fn view(&self) -> UnsignedView {
        UnsignedView { call: self.call@, nonce: self.nonce, tip: self.tip }
    }
}

impl UnsignedTransaction {
    /// An unsigned transaction of `call` with nonce `nonce` and no tip.
    pub fn new(call: Vec<u8>, nonce: u32) -> (res: UnsignedTransaction)
        ensures
            res@ == (UnsignedView { call: call@, nonce, tip: 0 }),
    {
        UnsignedTransaction { call, nonce, tip: 0 }
    }

    /// The same transaction with tip `tip`.
    pub fn tip(self, tip: u128) -> (res: UnsignedTransaction)
        ensures
            res@ == (UnsignedView { call: self.call@, nonce: self.nonce, tip }),
    {
        UnsignedTransaction { call: self.call, nonce: self.nonce, tip }
    }
}

/// What signing a transaction takes: the runtime versions and genesis hash of the chain,
/// the signer, the longevity and the transaction itself.
pub struct SignParam {
    pub spec_version: u32,
    pub transaction_version: u32,
    pub genesis_hash: [u8; 32],
    pub signer: Sr25519Pair,
    pub era: TransactionEra,
    pub unsigned: UnsignedTransaction,
}

/// The data of the signed extensions that a transaction carries: the era (`CheckEra`), the
/// nonce (`CheckNonce`), the tip and fee asset (`ChargeAssetTxPayment`) and the tip
/// (`ChargeTransactionPayment`). The other extensions carry no data.
#[derive(Clone, Copy, Debug)]
pub struct SignedExtra {
    pub era: Era,
    pub nonce: u32,
    pub asset_tip: u128,
    pub asset_id: Option<u32>,
    pub payment_tip: u128,
}

/// The signature part of a signed transaction: the sender's account, the signature and
/// the signed extensions.
#[derive(Clone, Copy, Debug)]
pub struct ExtrinsicSignature {
    pub address: [u8; 32],
    pub signature: [u8; 64],
    pub extra: SignedExtra,
}

/// A transaction as submitted to the chain: the encoded call and, if it is signed, its
/// signature part.
#[derive(Clone, Debug)]
pub struct SignedTransaction {
    pub function: Vec<u8>,
    pub signature: Option<ExtrinsicSignature>,
}

/// The SCALE encoding of the signed extensions, in the order of the runtime's
/// `SignedExtra` tuple.
pub open spec fn extra_encoding(extra: SignedExtra) -> Seq<u8> {
    era_encoding(extra.era) + compact_encoding(extra.nonce as nat) + compact_encoding(
        extra.asset_tip as nat,
    ) + option_u32_encoding(extra.asset_id) + compact_encoding(extra.payment_tip as nat)
}

/// The SCALE encoding of what the signed extensions add to the signed payload: the
/// runtime's spec and transaction versions, the genesis hash and the era's block hash.
pub open spec fn additional_signed_encoding(
    spec_version: u32,
    transaction_version: u32,
    genesis_hash: [u8; 32],
    block_hash: [u8; 32],
) -> Seq<u8> {
    le_bytes(spec_version as nat, 4) + le_bytes(transaction_version as nat, 4) + genesis_hash@
        + block_hash@
}

/// What a signature covers: the payload itself, or its Blake2-256 hash when it is longer
/// than `MAX_UNHASHED_PAYLOAD` bytes.
pub open spec fn signed_message(payload: Seq<u8>) -> Seq<u8> {
    if payload.len() > MAX_UNHASHED_PAYLOAD {
        blake2_256_hash(payload)
    } else {
        payload
    }
}

/// The signed extensions that signing with `param` puts into a transaction.
pub open spec fn spec_signed_extra(param: SignParam) -> SignedExtra {
    SignedExtra {
        era: spec_frame_era(param.era),
        nonce: param.unsigned.nonce,
        asset_tip: param.unsigned.tip,
        asset_id: None,
        payment_tip: param.unsigned.tip,
    }
}

/// The payload that signing with `param` signs: the call, the signed extensions and what
/// they add.
pub open spec fn spec_signing_payload(param: SignParam) -> Seq<u8> {
    param.unsigned.call@ + extra_encoding(spec_signed_extra(param)) + additional_signed_encoding(
        param.spec_version,
        param.transaction_version,
        param.genesis_hash,
        spec_era_block_hash(param.era, param.genesis_hash),
    )
}

/// `tx` is what signing with `param` gives: the call of the unsigned transaction, signed by
/// the signer's account, with the signed extensions of `param`, and a signature of the
/// signing payload that verifies under the signer's public key.
pub open spec fn signed_from(tx: SignedTransaction, param: SignParam) -> bool {
    &&& tx.function@ == param.unsigned.call@
    &&& tx.signature matches Some(s)
    &&& s.address@ == sr25519_public_key(param.signer.seed())
    &&& s.extra == spec_signed_extra(param)
    &&& sr25519_signature_valid(
        s.signature@,
        signed_message(spec_signing_payload(param)),
        s.address@,
    )
}

/// The unsigned transaction that a signed transaction holds: its call, the nonce of its
/// `CheckNonce` extension and the tip of its `ChargeAssetTxPayment` extension; none for an
/// unsigned transaction.
pub open spec fn spec_parsed(tx: SignedTransaction) -> Option<UnsignedView> {
    match tx.signature {
        None => None,
        Some(s) => Some(
            UnsignedView { call: tx.function@, nonce: s.extra.nonce, tip: s.extra.asset_tip },
        ),
    }
}

/// The storage prefix of the `System` pallet.
pub open spec fn system_pallet_prefix() -> Seq<u8> {
    seq![83u8, 121u8, 115u8, 116u8, 101u8, 109u8]
}

/// The storage prefix of the `Account` map.
pub open spec fn account_map_prefix() -> Seq<u8> {
    seq![65u8, 99u8, 99u8, 111u8, 117u8, 110u8, 116u8]
}

/// The storage key of an account's information: the hashed pallet and map prefixes, then
/// the account id behind its Blake2-128 hash.
pub open spec fn spec_account_info_key(account: Seq<u8>) -> Seq<u8> {
    account_info_prefix() + blake2_128_hash(account) + account
}

/// The prefix that the storage keys of all accounts' information share: the hashed pallet
/// and map prefixes.
pub open spec fn account_info_prefix() -> Seq<u8> {
    twox_128_hash(system_pallet_prefix()) + twox_128_hash(account_map_prefix())
}

/// How the storage key of an account's information is laid out: 80 bytes, the shared
/// 32-byte prefix first and the 32-byte account id last, from byte 48 on.
pub open spec fn account_info_key_layout(key: Seq<u8>, account: Seq<u8>) -> bool {
    &&& key.len() == 80
    &&& account_info_prefix().len() == 32
    &&& key.subrange(0, 32) == account_info_prefix()
    &&& key.subrange(48, 80) == account
}

/// The SCALE encoding of the signed extensions.
pub fn encode_extra(extra: &SignedExtra) -> (res: Vec<u8>)
    requires
        era_encodable(extra.era),
    ensures
        res@ == extra_encoding(*extra),
{
    let mut out = encode_era(&extra.era);
    let mut part = encode_compact_u32(extra.nonce);
    out.append(&mut part);
    let mut part = encode_compact_u128(extra.asset_tip);
    out.append(&mut part);
    let mut part = encode_option_u32(extra.asset_id);
    out.append(&mut part);
    let mut part = encode_compact_u128(extra.payment_tip);
    out.append(&mut part);
    out
}

/// The SCALE encoding of what the signed extensions add to the signed payload.
pub fn encode_additional_signed(
    spec_version: u32,
    transaction_version: u32,
    genesis_hash: &[u8; 32],
    block_hash: &[u8; 32],
) -> (res: Vec<u8>)
    ensures
        res@ == additional_signed_encoding(
            spec_version,
            transaction_version,
            *genesis_hash,
            *block_hash,
        ),
{
    let mut out = encode_u32(spec_version);
    let mut part = encode_u32(transaction_version);
    out.append(&mut part);
    push_bytes(&mut out, genesis_hash);
    push_bytes(&mut out, block_hash);
    out
}

/// What a signature of `payload` covers.
pub fn signing_message(payload: Vec<u8>) -> (res: Vec<u8>)
    ensures
        res@ == signed_message(payload@),
{
    if payload.len() > MAX_UNHASHED_PAYLOAD {
        let hash = blake2_256(payload.as_slice());
        let mut out: Vec<u8> = Vec::new();
        push_bytes(&mut out, &hash);
        out
    } else {
        payload
    }
}

/// The Millau chain, as the relay uses it.
pub struct Substrate;

impl Substrate {
    /// Signs the transaction of `param`: the signer's account signs the call together with
    /// the signed extensions and what they add.
    pub fn sign_transaction(param: SignParam) -> (res: SignedTransaction)
        ensures
            signed_from(res, param),
            res.signature matches Some(s) && s.extra.nonce == param.unsigned.nonce
                && s.extra.asset_tip == param.unsigned.tip && s.extra.payment_tip
                == param.unsigned.tip && s.extra.asset_id is None,
    {
        let era = param.era.frame_era();
        let extra = SignedExtra {
            era,
            nonce: param.unsigned.nonce,
            asset_tip: param.unsigned.tip,
            asset_id: None,
            payment_tip: param.unsigned.tip,
        };
        let block_hash = param.era.signed_payload(param.genesis_hash);
        let mut payload: Vec<u8> = Vec::new();
        push_bytes(&mut payload, param.unsigned.call.as_slice());
        let mut part = encode_extra(&extra);
        payload.append(&mut part);
        let mut part = encode_additional_signed(
            param.spec_version,
            param.transaction_version,
            &param.genesis_hash,
            &block_hash,
        );
        payload.append(&mut part);
        assert(payload@ == spec_signing_payload(param));
        let message = signing_message(payload);
        let signature = param.signer.sign(message.as_slice());
        let address = param.signer.public();
        SignedTransaction {
            function: param.unsigned.call,
            signature: Some(ExtrinsicSignature { address, signature, extra }),
        }
    }

    /// Whether `tx` is signed.
    pub fn is_signed(tx: &SignedTransaction) -> (r: bool)
        ensures
            r == tx.signature is Some,
    {
        tx.signature.is_some()
    }

    /// Whether `tx` is signed by the account of `signer`.
    pub fn is_signed_by(signer: &Sr25519Pair, tx: &SignedTransaction) -> (r: bool)
        ensures
            r == (tx.signature matches Some(s) && s.address@ == sr25519_public_key(
                signer.seed(),
            )),
    {
        match &tx.signature {
            Some(s) => {
                let public = signer.public();
                let same = crate::location::bytes_eq(&s.address, &public);
                proof {
                    if s.address@ == public@ {
                        assert(s.address =~= public);
                    }
                }
                same
            },
            None => false,
        }
    }

    /// The unsigned transaction that `tx` holds. The nonce and the tip are read back from
    /// the SCALE encodings of their signed extensions.
    pub fn parse_transaction(tx: SignedTransaction) -> (res: Option<UnsignedTransaction>)
        ensures
            match res {
                None => spec_parsed(tx) is None,
                Some(u) => spec_parsed(tx) == Some(u@),
            },
    {
        let extra = match &tx.signature {
            Some(s) => s.extra,
            None => return None,
        };
        let nonce_bytes = encode_compact_u32(extra.nonce);
        assert(nonce_bytes@.take(nonce_bytes@.len() as int) =~= nonce_bytes@);
        assert(is_prefix_of(compact_encoding(extra.nonce as nat), nonce_bytes@));
        let nonce = match decode_compact_u32(nonce_bytes.as_slice()) {
            Some(n) => n,
            None => return None,
        };
        let mut tip_bytes = encode_compact_u128(extra.asset_tip);
        let ghost tip_enc = tip_bytes@;
        let mut asset_bytes = encode_option_u32(extra.asset_id);
        tip_bytes.append(&mut asset_bytes);
        assert(tip_bytes@.take(tip_enc.len() as int) =~= tip_enc);
        assert(is_prefix_of(compact_encoding(extra.asset_tip as nat), tip_bytes@));
        let tip = match decode_compact_u128(tip_bytes.as_slice()) {
            Some(t) => t,
            None => return None,
        };
        Some(UnsignedTransaction { call: tx.function, nonce, tip })
    }

    /// The storage key under which the chain keeps the information of `account`.
    pub fn account_info_storage_key(account: &[u8; 32]) -> (res: Vec<u8>)
        ensures
            res@ == spec_account_info_key(account@),
            account_info_key_layout(res@, account@),
            res@.subrange(0, 16) == twox_128_hash(seq![83u8, 121u8, 115u8, 116u8, 101u8, 109u8]),
            res@.subrange(16, 32) == twox_128_hash(
                seq![65u8, 99u8, 99u8, 111u8, 117u8, 110u8, 116u8],
            ),
            res@.subrange(32, 48) == blake2_128_hash(account@),
    {
        let system: Vec<u8> = vec![83u8, 121u8, 115u8, 116u8, 101u8, 109u8];
        let map: Vec<u8> = vec![65u8, 99u8, 99u8, 111u8, 117u8, 110u8, 116u8];
        assert(system@ =~= system_pallet_prefix());
        assert(map@ =~= account_map_prefix());
        let mut key: Vec<u8> = Vec::new();
        let h = twox_128(system.as_slice());
        push_bytes(&mut key, &h);
        let h = twox_128(map.as_slice());
        push_bytes(&mut key, &h);
        let h = blake2_128(account);
        push_bytes(&mut key, &h);
        push_bytes(&mut key, account);
        assert(key@.subrange(0, 32) =~= account_info_prefix());
        assert(key@.subrange(48, 80) =~= account@);
        assert(key@.subrange(0, 16) =~= twox_128_hash(system_pallet_prefix()));
        assert(key@.subrange(16, 32) =~= twox_128_hash(account_map_prefix()));
        assert(key@.subrange(32, 48) =~= blake2_128_hash(account@));
        key
    }
}

impl Substrate {
    /// The name of the chain.
    pub fn name() -> (res: &'static str)
        ensures
            res@ == "Millau"@,
    {
        "Millau"
    }

    /// The token that the chain's token is priced as.
    pub fn token_id() -> (res: Option<&'static str>)
        ensures
            res matches Some(id) && id@ == "kusama"@,
    {
        Some("kusama")
    }

    /// The average time between two blocks, in milliseconds.
    pub fn average_block_interval_millis() -> (res: u64)
        ensures
            res == 5000,
    {
        5000
    }
}

/// The storage keys of two accounts' information share their first 32 bytes, give each
/// account back from byte 48 on, and are equal exactly when the accounts are.
pub proof fn lemma_account_info_keys(a: [u8; 32], b: [u8; 32], key_a: Seq<u8>, key_b: Seq<u8>)
    requires
        key_a == spec_account_info_key(a@),
        account_info_key_layout(key_a, a@),
        key_b == spec_account_info_key(b@),
        account_info_key_layout(key_b, b@),
    ensures
        key_a.len() == 80,
        key_a.subrange(0, 32) == key_b.subrange(0, 32),
        key_a.subrange(48, 80) == a@,
        key_a.subrange(32, 48) == blake2_128_hash(a@),
        key_a == key_b <==> a@ == b@,
{
    assert(blake2_128_hash(a@).len() == 16);
    assert(key_a.subrange(32, 48) =~= blake2_128_hash(a@));
    if key_a == key_b {
        assert(a@ == key_a.subrange(48, 80));
    }
}

/// Reading back a transaction that signing produced gives the unsigned transaction that
/// was signed.
pub proof fn lemma_parse_inverts_sign(tx: SignedTransaction, param: SignParam)
    requires
        signed_from(tx, param),
    ensures
        spec_parsed(tx) == Some(param.unsigned@),
{
}

/// Signing puts the unsigned transaction's nonce into `CheckNonce` and its tip into both
/// payment extensions, pays in the native asset, and carries the era asked for, whatever
/// that era is.
pub proof fn lemma_signed_extra_carries_the_transaction(tx: SignedTransaction, param: SignParam)
    requires
        signed_from(tx, param),
    ensures
        tx.signature is Some,
        tx.signature->Some_0.extra.nonce == param.unsigned.nonce,
        tx.signature->Some_0.extra.asset_tip == param.unsigned.tip,
        tx.signature->Some_0.extra.payment_tip == param.unsigned.tip,
        tx.signature->Some_0.extra.asset_id is None,
        tx.signature->Some_0.extra.era == spec_frame_era(param.era),
{
}

/// A transaction that signing produced is signed, by the account of its signer.
pub proof fn lemma_signed_by_signer(tx: SignedTransaction, param: SignParam)
    requires
        signed_from(tx, param),
    ensures
        tx.signature is Some,
        tx.signature->Some_0.address@ == sr25519_public_key(param.signer.seed()),
{
}

} // verus!
