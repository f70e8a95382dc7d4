use millau_bridge::chain::{
    encode_additional_signed, encode_extra, push_bytes, signing_message, SignParam,
    SignedExtra, SignedTransaction, Substrate, UnsignedTransaction,
};
use millau_bridge::era::{Era, TransactionEra};
use millau_bridge::sr25519::Sr25519Pair;
use sp_core::Pair;

fn remark_call(text: &[u8]) -> Vec<u8> {
    // System pallet (index 0), `remark` call (index 0), then the remark as a vector.
    let mut call = vec![0u8, 0u8];
    call.push((text.len() as u8) << 2);
    call.extend_from_slice(text);
    call
}

fn sign_param(unsigned: UnsignedTransaction, era: TransactionEra) -> SignParam {
    SignParam {
        spec_version: 42,
        transaction_version: 50000,
        genesis_hash: [42u8; 32],
        signer: Sr25519Pair::from_seed([1u8; 32]),
        era,
        unsigned,
    }
}

fn expected_message(param: &SignParam, extra: &SignedExtra) -> Vec<u8> {
    let block_hash = param.era.signed_payload(param.genesis_hash);
    let mut payload = param.unsigned.call.clone();
    payload.extend(encode_extra(extra));
    payload.extend(encode_additional_signed(
        param.spec_version,
        param.transaction_version,
        &param.genesis_hash,
        &block_hash,
    ));
    signing_message(payload)
}

#[test]
fn parse_transaction_works() {
    let unsigned = UnsignedTransaction { call: remark_call(b"Hello world!"), nonce: 777, tip: 888 };
    let signed_transaction =
        Substrate::sign_transaction(sign_param(unsigned.clone(), TransactionEra::immortal()));
    let parsed_transaction = Substrate::parse_transaction(signed_transaction).unwrap();
    assert_eq!(parsed_transaction, unsigned);
}

#[test]
fn signed_transaction_carries_the_extensions_and_a_valid_signature() {
    let unsigned = UnsignedTransaction { call: remark_call(b"Hello world!"), nonce: 777, tip: 888 };
    let param = sign_param(unsigned.clone(), TransactionEra::immortal());
    let signer = sp_core::sr25519::Pair::from_seed(&[1u8; 32]);
    let tx = Substrate::sign_transaction(sign_param(unsigned.clone(), TransactionEra::immortal()));
    assert_eq!(tx.function, unsigned.call);
    let s = tx.signature.unwrap();
    assert_eq!(s.address, signer.public().0);
    assert!(matches!(s.extra.era, Era::Immortal));
    assert_eq!(s.extra.nonce, 777);
    assert_eq!(s.extra.asset_tip, 888);
    assert_eq!(s.extra.asset_id, None);
    assert_eq!(s.extra.payment_tip, 888);
    let message = expected_message(&param, &s.extra);
    // A short payload is signed as it is.
    assert!(message.len() <= 256);
    let sig = sp_core::sr25519::Signature::from_raw(s.signature);
    assert!(sp_core::sr25519::Pair::verify(&sig, &message, &signer.public()));
}

#[test]
fn signing_payload_layout_is_exact() {
    let unsigned = UnsignedTransaction { call: vec![7u8, 8u8], nonce: 777, tip: 888 };
    let param = sign_param(unsigned, TransactionEra::immortal());
    let extra = SignedExtra {
        era: Era::Immortal,
        nonce: 777,
        asset_tip: 888,
        asset_id: None,
        payment_tip: 888,
    };
    let mut expected = vec![7u8, 8u8];
    expected.extend([0u8, 0x25, 0x0c, 0xe1, 0x0d, 0, 0xe1, 0x0d]);
    expected.extend([42u8, 0, 0, 0]);
    expected.extend([0x50u8, 0xc3, 0, 0]);
    expected.extend([42u8; 32]);
    expected.extend([42u8; 32]);
    assert_eq!(expected_message(&param, &extra), expected);
}

#[test]
fn long_payloads_are_hashed_before_signing() {
    let unsigned = UnsignedTransaction { call: vec![5u8; 300], nonce: 1, tip: 0 };
    let param = sign_param(unsigned.clone(), TransactionEra::immortal());
    let tx = Substrate::sign_transaction(sign_param(unsigned, TransactionEra::immortal()));
    let s = tx.signature.unwrap();
    let message = expected_message(&param, &s.extra);
    assert_eq!(message.len(), 32);
    let mut payload = vec![5u8; 300];
    payload.extend(encode_extra(&s.extra));
    payload.extend(encode_additional_signed(42, 50000, &[42u8; 32], &[42u8; 32]));
    assert_eq!(message, sp_crypto_hashing::blake2_256(&payload).to_vec());
    let signer = sp_core::sr25519::Pair::from_seed(&[1u8; 32]);
    let sig = sp_core::sr25519::Signature::from_raw(s.signature);
    assert!(sp_core::sr25519::Pair::verify(&sig, &message, &signer.public()));
}

#[test]
fn mortal_transaction_signs_its_block_hash() {
    let unsigned = UnsignedTransaction { call: vec![1u8], nonce: 3, tip: 4 };
    let era = TransactionEra::Mortal { block_number: 100, block_hash: [9u8; 32], period: 64 };
    let param = sign_param(unsigned.clone(), era);
    let tx = Substrate::sign_transaction(sign_param(unsigned.clone(), era));
    let s = tx.signature.unwrap();
    assert!(matches!(s.extra.era, Era::Mortal { period: 64, phase: 36 }));
    let message = expected_message(&param, &s.extra);
    assert_eq!(&message[message.len() - 32..], &[9u8; 32]);
    let signer = sp_core::sr25519::Pair::from_seed(&[1u8; 32]);
    let sig = sp_core::sr25519::Signature::from_raw(s.signature);
    assert!(sp_core::sr25519::Pair::verify(&sig, &message, &signer.public()));
    let parsed = Substrate::parse_transaction(tx).unwrap();
    assert_eq!(parsed, unsigned);
}

#[test]
fn parse_transaction_of_unsigned_is_none() {
    let tx = SignedTransaction { function: vec![1u8, 2u8], signature: None };
    assert!(Substrate::parse_transaction(tx).is_none());
}

#[test]
fn parse_transaction_reads_the_asset_payment_tip() {
    let tx = SignedTransaction {
        function: vec![3u8],
        signature: Some(millau_bridge::chain::ExtrinsicSignature {
            address: [0u8; 32],
            signature: [0u8; 64],
            extra: SignedExtra {
                era: Era::Immortal,
                nonce: u32::MAX,
                asset_tip: u128::MAX,
                asset_id: Some(5),
                payment_tip: 1,
            },
        }),
    };
    let parsed = Substrate::parse_transaction(tx).unwrap();
    assert_eq!(parsed.call, vec![3u8]);
    assert_eq!(parsed.nonce, u32::MAX);
    assert_eq!(parsed.tip, u128::MAX);
}

#[test]
fn is_signed_and_is_signed_by() {
    let alice = Sr25519Pair::from_seed([1u8; 32]);
    let bob = Sr25519Pair::from_seed([2u8; 32]);
    let unsigned = UnsignedTransaction::new(vec![1u8], 0).tip(10);
    assert_eq!(unsigned.tip, 10);
    let tx = Substrate::sign_transaction(sign_param(unsigned, TransactionEra::immortal()));
    assert!(Substrate::is_signed(&tx));
    assert!(Substrate::is_signed_by(&alice, &tx));
    assert!(!Substrate::is_signed_by(&bob, &tx));
    let plain = SignedTransaction { function: vec![1u8], signature: None };
    assert!(!Substrate::is_signed(&plain));
    assert!(!Substrate::is_signed_by(&alice, &plain));
}

#[test]
fn public_key_is_that_of_sp_core() {
    let pair = Sr25519Pair::from_seed([7u8; 32]);
    let expected = sp_core::sr25519::Pair::from_seed(&[7u8; 32]).public().0;
    assert_eq!(pair.public(), expected);
    assert_ne!(pair.public(), [7u8; 32]);
}

#[test]
fn account_info_storage_key_layout() {
    let account = [3u8; 32];
    let key = Substrate::account_info_storage_key(&account);
    let system = [
        0x26u8, 0xaa, 0x39, 0x4e, 0xea, 0x56, 0x30, 0xe0, 0x7c, 0x48, 0xae, 0x0c, 0x95, 0x58, 0xce,
        0xf7,
    ];
    let accounts = [
        0xb9u8, 0x9d, 0x88, 0x0e, 0xc6, 0x81, 0x79, 0x9c, 0x0c, 0xf3, 0x0e, 0x88, 0x86, 0x37, 0x1d,
        0xa9,
    ];
    assert_eq!(key.len(), 16 + 16 + 16 + 32);
    assert_eq!(&key[0..16], &system);
    assert_eq!(&key[16..32], &accounts);
    assert_eq!(&key[32..48], &sp_crypto_hashing::blake2_128(&account));
    assert_eq!(&key[48..80], &account);
}

#[test]
fn push_bytes_appends() {
    let mut v = vec![1u8, 2u8];
    push_bytes(&mut v, &[3u8, 4u8]);
    assert_eq!(v, vec![1u8, 2u8, 3u8, 4u8]);
}

#[test]
fn chain_constants() {
    assert_eq!(Substrate::name(), "Millau");
    assert_eq!(Substrate::token_id(), Some("kusama"));
    assert_eq!(Substrate::average_block_interval_millis(), 5000);
}

#[test]
fn account_info_storage_keys_share_a_prefix_and_end_in_the_account() {
    let a = [3u8; 32];
    let b = [4u8; 32];
    let key_a = Substrate::account_info_storage_key(&a);
    let key_b = Substrate::account_info_storage_key(&b);
    assert_eq!(key_a.len(), 80);
    assert_eq!(key_b.len(), 80);
    assert_eq!(&key_a[0..32], &key_b[0..32]);
    assert_eq!(&key_a[48..80], &a);
    assert_eq!(&key_b[48..80], &b);
    assert_ne!(key_a, key_b);
    assert_eq!(key_a, Substrate::account_info_storage_key(&a));
}
