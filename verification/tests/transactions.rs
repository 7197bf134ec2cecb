use extrinsic_factory::adapter::{timestamp_from_clock, RuntimeAdapterImpl};
use extrinsic_factory::address::Address;
use extrinsic_factory::call::Call;
use extrinsic_factory::era::Era;
use extrinsic_factory::extrinsic::{encode_payload, CheckedExtrinsic, UncheckedExtrinsic};
use extrinsic_factory::keys::{verify, Secret};
use extrinsic_factory::signer::{sign, sign_payload, verify_payload};
use sp_core::{sr25519, Pair};
use sp_keyring::Sr25519Keyring;

const HASH: [u8; 32] = [
    0x45, 0x67, 0x89, 0xab, 0xcd, 0xef, 0x01, 0x23, 0x45, 0x67, 0x89, 0xab, 0xcd, 0xef, 0x01, 0x23,
    0x45, 0x67, 0x89, 0xab, 0xcd, 0xef, 0x01, 0x23, 0x45, 0x67, 0x89, 0xab, 0xcd, 0xef, 0x01, 0x23,
];

fn chain_accepts(signature: &[u8; 64], message: &[u8], public: &[u8; 32]) -> bool {
    sr25519::Pair::verify(
        &sr25519::Signature::from_raw(*signature),
        message,
        &sr25519::Public::from_raw(*public),
    )
}

#[test]
fn transfer_from_the_master_account_to_the_account_of_seed_zero() {
    let master = RuntimeAdapterImpl::master_account_id();
    let key = RuntimeAdapterImpl::master_account_secret();
    let a0 = RuntimeAdapterImpl::gen_random_account_id(0);
    assert_eq!(a0, RuntimeAdapterImpl::gen_random_account_id(0));
    assert_eq!(&a0[..4], &[64, 138, 163, 107]);
    assert_eq!(&a0[28..], &[59, 95, 14, 68]);

    let xt = RuntimeAdapterImpl::transfer_extrinsic(&master, &key, &a0, 1000, 0, 0, &HASH);

    let (address, signature, nonce, era) = xt.signature.expect("a transfer is signed");
    assert_eq!(address, Address::Id(master));
    assert_eq!(nonce, 0);
    assert_eq!(era, Era::Mortal(256, 0));
    assert_eq!(xt.function, Call::Transfer { dest: Address::Id(a0), value: 1000 });

    // The signed bytes, written out by hand: nonce, call, era, hash.
    let mut payload = vec![0x00u8, 3, 0, 0xff];
    payload.extend_from_slice(&a0);
    payload.extend_from_slice(&[0xa1, 0x0f, 0x07, 0x00]);
    payload.extend_from_slice(&HASH);
    assert!(chain_accepts(&signature, &payload, &Sr25519Keyring::Alice.to_raw_public()));
    assert!(xt.check_signature(&HASH));

    let bytes = xt.encode();
    let (decoded, rest) = UncheckedExtrinsic::decode(&bytes).expect("what was built decodes");
    assert!(rest.is_empty());
    assert_eq!(decoded, xt);
    let (_, _, decoded_nonce, _) = decoded.signature.expect("still signed");
    assert_eq!(decoded_nonce, 0);
    assert_eq!(decoded.function, Call::Transfer { dest: Address::Id(a0), value: 1000 });
}

#[test]
fn transfers_come_back_from_their_bytes() {
    let cases: [(u64, u64, u128, u64, u64); 7] = [
        (1, 2, 0, 0, 0),
        (1, 2, 1, 1, 1),
        (3, 3, 63, 64, 255),
        (4, 5, 1 << 30, 1 << 30, 256),
        (6, 7, u64::MAX as u128, u64::MAX, 257),
        (8, 9, u128::MAX, 16383, u64::MAX),
        (u64::MAX, 0, 1 << 100, 16384, 1 << 40),
    ];
    for (from, to, amount, index, phase) in cases {
        let key = RuntimeAdapterImpl::gen_random_account_secret(from);
        let sender = key.public();
        let destination = RuntimeAdapterImpl::gen_random_account_id(to);
        let xt = RuntimeAdapterImpl::transfer_extrinsic(
            &sender, &key, &destination, amount, index, phase, &HASH,
        );
        assert!(xt.is_well_formed());
        let bytes = xt.encode();
        assert_eq!(UncheckedExtrinsic::decode(&bytes), Some((xt, &[][..])));
        assert!(xt.check_signature(&HASH));
        let (address, _, nonce, era) = xt.signature.expect("a transfer is signed");
        assert_eq!(address, Address::Id(sender));
        assert_eq!(nonce, index);
        assert_eq!(era, Era::Mortal(256, phase % 256));
        assert_eq!(xt.function, Call::Transfer { dest: Address::Id(destination), value: amount });
    }
}

#[test]
fn transfer_signature_covers_nonce_call_era_and_hash() {
    let key = RuntimeAdapterImpl::gen_random_account_secret(21);
    let sender = key.public();
    let destination = RuntimeAdapterImpl::gen_random_account_id(22);
    let xt = RuntimeAdapterImpl::transfer_extrinsic(&sender, &key, &destination, 5, 6, 7, &HASH);
    let (address, signature, nonce, era) = xt.signature.expect("a transfer is signed");
    let payload = encode_payload(nonce, &xt.function, &era, &HASH);
    assert!(payload.len() <= 256);
    assert!(chain_accepts(&signature, &payload, &sender));

    assert!(xt.check_signature(&HASH));
    let mut other_hash = HASH;
    other_hash[31] ^= 1;
    assert!(!xt.check_signature(&other_hash));

    let other_nonce =
        UncheckedExtrinsic { signature: Some((address, signature, nonce + 1, era)), ..xt };
    assert!(!other_nonce.check_signature(&HASH));
    let other_era = UncheckedExtrinsic {
        signature: Some((address, signature, nonce, Era::Mortal(256, 8))),
        ..xt
    };
    assert!(!other_era.check_signature(&HASH));
    let other_call = UncheckedExtrinsic {
        function: Call::Transfer { dest: Address::Id(destination), value: 6 },
        ..xt
    };
    assert!(!other_call.check_signature(&HASH));
    let other_sender = UncheckedExtrinsic {
        signature: Some((Address::Id(destination), signature, nonce, era)),
        ..xt
    };
    assert!(!other_sender.check_signature(&HASH));
}

#[test]
fn a_transaction_that_cannot_be_written_does_not_pass_the_check() {
    let key = RuntimeAdapterImpl::gen_random_account_secret(31);
    let xt = UncheckedExtrinsic {
        signature: Some((Address::Id(key.public()), [0u8; 64], 0, Era::Mortal(100, 0))),
        function: Call::SetTimestamp { now: 1 },
    };
    assert!(!xt.is_well_formed());
    assert!(!xt.check_signature(&HASH));
}

#[test]
fn transfer_signed_with_a_key_that_is_not_the_senders_is_the_keys() {
    let key = RuntimeAdapterImpl::gen_random_account_secret(2);
    let sender = RuntimeAdapterImpl::gen_random_account_id(1);
    let destination = RuntimeAdapterImpl::gen_random_account_id(3);
    let xt = RuntimeAdapterImpl::transfer_extrinsic(&sender, &key, &destination, 1, 0, 0, &HASH);
    let (address, signature, nonce, era) = xt.signature.expect("a transfer is signed");
    assert_eq!(address, Address::Id(sender));
    let payload = encode_payload(nonce, &xt.function, &era, &HASH);
    assert!(verify(&signature, &payload, &key.public()));
    assert!(!verify(&signature, &payload, &sender));
    assert!(!xt.check_signature(&HASH));
}

#[test]
fn same_phase_same_era() {
    let key = RuntimeAdapterImpl::gen_random_account_secret(1);
    let sender = key.public();
    for phase in [0u64, 1, 100, 255, 256, 511, 1 << 33, u64::MAX] {
        let first = RuntimeAdapterImpl::transfer_extrinsic(&sender, &key, &sender, 1, 0, phase, &HASH);
        let second = RuntimeAdapterImpl::transfer_extrinsic(&sender, &key, &sender, 2, 9, phase, &[0u8; 32]);
        let (_, _, _, era) = first.signature.expect("signed");
        let (_, _, _, again) = second.signature.expect("signed");
        assert_eq!(era, again);
        match era {
            Era::Mortal(period, at) => {
                assert_eq!(period, 256);
                assert_eq!(at, phase % 256);
            }
            Era::Immortal => panic!("a transfer is mortal"),
        }
    }
}

#[test]
fn timestamp_inherent_is_unsigned_whatever_the_key() {
    for (seed, ts, phase) in [(0u64, 0u64, 0u64), (1, 1_558_000_000, 77), (u64::MAX, u64::MAX, u64::MAX)] {
        let key = RuntimeAdapterImpl::gen_random_account_secret(seed);
        let xt = RuntimeAdapterImpl::timestamp_inherent(ts, key, phase, &HASH);
        assert_eq!(
            xt,
            UncheckedExtrinsic { signature: None, function: Call::SetTimestamp { now: ts } }
        );
        assert!(xt.check_signature(&HASH));
        let bytes = xt.encode();
        assert_eq!(bytes[1], 0x01);
        assert_eq!(UncheckedExtrinsic::decode(&bytes), Some((xt, &[][..])));
    }
    let by_master = RuntimeAdapterImpl::timestamp_inherent(
        5, RuntimeAdapterImpl::master_account_secret(), 0, &HASH,
    );
    assert_eq!(by_master.signature, None);
    assert_eq!(by_master.encode(), vec![0x10, 0x01, 0x00, 0x00, 0x14]);
}

#[test]
fn signing_an_unsigned_intent_leaves_it_unsigned() {
    let key = Secret::from_seed([1u8; 32]);
    let call = Call::Transfer { dest: Address::Id([2u8; 32]), value: 3 };
    let intent = CheckedExtrinsic { signed: None, function: call };
    let xt = sign(intent, &key, &HASH, 4);
    assert_eq!(xt.signature, None);
    assert_eq!(xt.function, call);
}

#[test]
fn signing_a_signed_timestamp_call_signs_it() {
    let key = Secret::from_seed([1u8; 32]);
    let intent = CheckedExtrinsic {
        signed: Some((key.public(), 12)),
        function: Call::SetTimestamp { now: 99 },
    };
    let xt = sign(intent, &key, &HASH, 300);
    let (address, signature, nonce, era) = xt.signature.expect("a sender means a signature");
    assert_eq!(address, Address::Id(key.public()));
    assert_eq!(nonce, 12);
    assert_eq!(era, Era::Mortal(256, 44));
    let mut payload = vec![0x30u8, 0, 0, 0x8d, 0x01, 0xc7, 0x02];
    payload.extend_from_slice(&HASH);
    assert!(chain_accepts(&signature, &payload, &key.public()));
    assert!(xt.check_signature(&HASH));
}

#[test]
fn payload_of_256_bytes_is_signed_as_it_is() {
    let key = RuntimeAdapterImpl::gen_random_account_secret(4);
    let public = key.public();
    let payload: Vec<u8> = (0..256u32).map(|i| (i * 7) as u8).collect();
    assert_eq!(payload.len(), 256);
    let signature = sign_payload(&key, &payload);
    assert!(chain_accepts(&signature, &payload, &public));
    assert!(!chain_accepts(&signature, &sp_io::hashing::blake2_256(&payload), &public));
    assert!(verify_payload(&signature, &payload, &public));
}

#[test]
fn payload_of_257_bytes_is_signed_by_its_hash() {
    let key = RuntimeAdapterImpl::gen_random_account_secret(4);
    let public = key.public();
    let payload: Vec<u8> = (0..257u32).map(|i| (i * 7) as u8).collect();
    assert_eq!(payload.len(), 257);
    let signature = sign_payload(&key, &payload);
    let digest = sp_io::hashing::blake2_256(&payload);
    assert!(chain_accepts(&signature, &digest, &public));
    assert!(!chain_accepts(&signature, &payload, &public));
    assert!(verify_payload(&signature, &payload, &public));
    // A signature on the raw bytes of a long payload is not one on the payload.
    let raw = key.sign(&payload);
    assert!(!verify_payload(&raw, &payload, &public));
}

#[test]
fn short_and_long_payloads_follow_the_same_rule() {
    let key = RuntimeAdapterImpl::gen_random_account_secret(5);
    let public = key.public();
    for len in [0usize, 1, 32, 255, 256, 257, 258, 1000] {
        let payload = vec![0x5au8; len];
        let signature = sign_payload(&key, &payload);
        let signed: Vec<u8> = if len > 256 {
            sp_io::hashing::blake2_256(&payload).to_vec()
        } else {
            payload.clone()
        };
        assert!(chain_accepts(&signature, &signed, &public), "length {}", len);
        assert!(verify_payload(&signature, &payload, &public), "length {}", len);
    }
}

#[test]
fn the_hash_of_a_payload_is_blake2b_256() {
    // The digest of the empty string, as published for BLAKE2b-256.
    let empty: [u8; 32] = [
        0x0e, 0x57, 0x51, 0xc0, 0x26, 0xe5, 0x43, 0xb2, 0xe8, 0xab, 0x2e, 0xb0, 0x60, 0x99, 0xda,
        0xa1, 0xd1, 0xe5, 0xdf, 0x47, 0x77, 0x8f, 0x77, 0x87, 0xfa, 0xab, 0x45, 0xcd, 0xf1, 0x2f,
        0xe3, 0xa8,
    ];
    assert_eq!(sp_io::hashing::blake2_256(&[]), empty);
    // A signature on the digest of 300 zero bytes is one on the long payload.
    let key = Secret::from_seed([8u8; 32]);
    let long = vec![0u8; 300];
    let digest = sp_io::hashing::blake2_256(&long);
    assert_ne!(digest.to_vec(), long);
    let on_digest = key.sign(&digest);
    assert!(verify_payload(&on_digest, &long, &key.public()));
}

#[test]
fn placeholder_figures_are_fixed() {
    assert_eq!(RuntimeAdapterImpl::minimum_balance(), 1337);
    assert_eq!(RuntimeAdapterImpl::minimum_period(), 99);
    assert_eq!(RuntimeAdapterImpl::extract_index([1u8; 32], HASH), 0);
    assert_eq!(RuntimeAdapterImpl::extract_index([2u8; 32], [0u8; 32]), 0);
    assert_eq!(RuntimeAdapterImpl::extract_phase(HASH), 0);
}

#[test]
fn a_clock_reading_is_the_time_and_no_reading_is_zero() {
    assert_eq!(timestamp_from_clock(Some(0)), 0);
    assert_eq!(timestamp_from_clock(Some(1)), 1);
    assert_eq!(timestamp_from_clock(Some(1_558_000_000)), 1_558_000_000);
    assert_eq!(timestamp_from_clock(Some(u64::MAX)), u64::MAX);
    assert_eq!(timestamp_from_clock(None), 0);
}

#[test]
fn timestamp_query_reads_the_clock() {
    let before = std::time::SystemTime::now()
        .duration_since(std::time::UNIX_EPOCH)
        .expect("the clock is past 1970")
        .as_secs();
    let read = RuntimeAdapterImpl::extract_timestamp(HASH);
    let after = std::time::SystemTime::now()
        .duration_since(std::time::UNIX_EPOCH)
        .expect("the clock is past 1970")
        .as_secs();
    assert!(before <= read && read <= after);
    assert!(read > 1_500_000_000);
}
