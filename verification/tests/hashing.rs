use soroban_sdk::testutils::Address as _;
use soroban_sdk::xdr::ToXdr;
use soroban_sdk::{Bytes, Env};

use swiftremit::hashing::{push_i128_be, push_u32_be, push_u64_be};
use swiftremit::{
    compute_settlement_id, compute_settlement_id_from_remittance, Address, Remittance, RemittanceStatus,
    HASH_SCHEMA_VERSION,
};

/// A fresh ledger address, in the XDR form the library keys by.
fn generated(env: &Env) -> Address {
    let a = soroban_sdk::Address::generate(env);
    Address::new(a.to_xdr(env).iter().collect())
}

#[test]
fn hashing_test_deterministic_hash_same_inputs() {
    let env = Env::default();
    let sender = generated(&env);
    let agent = generated(&env);
    let hash1 = compute_settlement_id(&env, 1, &sender, &agent, 1000, 25, Some(1234567890));
    let hash2 = compute_settlement_id(&env, 1, &sender, &agent, 1000, 25, Some(1234567890));
    assert_eq!(hash1, hash2, "Same inputs must produce identical hashes");
}

#[test]
fn hashing_test_deterministic_hash_different_inputs() {
    let env = Env::default();
    let sender = generated(&env);
    let agent = generated(&env);
    let hash1 = compute_settlement_id(&env, 1, &sender, &agent, 1000, 25, Some(1234567890));
    let hash2 = compute_settlement_id(&env, 2, &sender, &agent, 1000, 25, Some(1234567890));
    assert_ne!(hash1, hash2, "Different remittance IDs must produce different hashes");
}

#[test]
fn hashing_test_deterministic_hash_field_order_matters() {
    let env = Env::default();
    let sender = generated(&env);
    let agent = generated(&env);
    let hash1 = compute_settlement_id(&env, 1, &sender, &agent, 1000, 25, None);
    let hash2 = compute_settlement_id(&env, 1, &agent, &sender, 1000, 25, None);
    assert_ne!(hash1, hash2, "Field order must affect hash output");
}

#[test]
fn hashing_test_deterministic_hash_expiry_none_vs_zero() {
    let env = Env::default();
    let sender = generated(&env);
    let agent = generated(&env);
    let hash_none = compute_settlement_id(&env, 1, &sender, &agent, 1000, 25, None);
    let hash_zero = compute_settlement_id(&env, 1, &sender, &agent, 1000, 25, Some(0));
    assert_eq!(hash_none, hash_zero, "None and Some(0) must produce identical hashes");
}

#[test]
fn settlement_id_is_sha256_of_the_canonical_encoding() {
    let env = Env::default();
    let sender = generated(&env);
    let agent = generated(&env);
    let mut preimage: Vec<u8> = Vec::new();
    preimage.extend_from_slice(&7u64.to_be_bytes());
    preimage.extend_from_slice(&sender.to_xdr_bytes());
    preimage.extend_from_slice(&agent.to_xdr_bytes());
    preimage.extend_from_slice(&5000i128.to_be_bytes());
    preimage.extend_from_slice(&(-3i128).to_be_bytes());
    preimage.extend_from_slice(&99u64.to_be_bytes());
    let expected = env.crypto().sha256(&Bytes::from_slice(&env, &preimage)).to_array();
    assert_eq!(compute_settlement_id(&env, 7, &sender, &agent, 5000, -3, Some(99)), expected);
}

#[test]
fn settlement_id_of_a_remittance_ignores_its_status() {
    let env = Env::default();
    let sender = generated(&env);
    let agent = generated(&env);
    let mut remittance = Remittance {
        id: 3,
        sender: sender.clone(),
        agent: agent.clone(),
        amount: 1000,
        fee: 25,
        status: RemittanceStatus::Pending,
        expiry: Some(77),
    };
    let direct = compute_settlement_id(&env, 3, &sender, &agent, 1000, 25, Some(77));
    assert_eq!(compute_settlement_id_from_remittance(&env, &remittance), direct);
    remittance.status = RemittanceStatus::Completed;
    assert_eq!(compute_settlement_id_from_remittance(&env, &remittance), direct);
    assert_eq!(HASH_SCHEMA_VERSION, 1);
}

#[test]
fn encoders_write_big_endian() {
    let mut out = vec![0xaa];
    push_u32_be(&mut out, 0x0102_0304);
    push_u64_be(&mut out, 0x0506_0708_090a_0b0c);
    push_i128_be(&mut out, -2);
    let mut expected = vec![0xaa, 1, 2, 3, 4, 5, 6, 7, 8, 9, 10, 11, 12];
    expected.extend_from_slice(&(-2i128).to_be_bytes());
    assert_eq!(out, expected);
}
