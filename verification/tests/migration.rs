use soroban_sdk::testutils::Address as _;
use soroban_sdk::xdr::ToXdr;
use soroban_sdk::Env;

use swiftremit::{
    compute_batch_hash, compute_snapshot_hash, export_batch, export_state, import_batch, import_state, storage,
    verify_snapshot, Address, ContractError, InstanceData, PersistentData, Remittance, RemittanceStatus, Storage,
    SwiftRemitContract,
};

/// A fresh ledger address, in the XDR form the library keys by.
fn generated(env: &Env) -> Address {
    let a = soroban_sdk::Address::generate(env);
    Address::new(a.to_xdr(env).iter().collect())
}

fn hex(bytes: &[u8]) -> String {
    bytes.iter().map(|b| format!("{:02x}", b)).collect()
}

fn empty_persistent() -> PersistentData {
    PersistentData {
        remittances: Vec::new(),
        agents: Vec::new(),
        admin_roles: Vec::new(),
        settlement_hashes: Vec::new(),
        whitelisted_tokens: Vec::new(),
    }
}

#[test]
fn test_snapshot_hash_deterministic() {
    let env = Env::default();
    let instance_data = InstanceData {
        admin: generated(&env),
        usdc_token: generated(&env),
        platform_fee_bps: 250,
        remittance_counter: 10,
        accumulated_fees: 1000,
        paused: false,
        admin_count: 1,
    };
    let persistent_data = empty_persistent();
    let hash1 = compute_snapshot_hash(&env, &instance_data, &persistent_data, 1000, 100);
    let hash2 = compute_snapshot_hash(&env, &instance_data, &persistent_data, 1000, 100);
    assert_eq!(hash1, hash2);
}

#[test]
fn test_snapshot_hash_changes_with_data() {
    let env = Env::default();
    let instance_data1 = InstanceData {
        admin: generated(&env),
        usdc_token: generated(&env),
        platform_fee_bps: 250,
        remittance_counter: 10,
        accumulated_fees: 1000,
        paused: false,
        admin_count: 1,
    };
    let instance_data2 = InstanceData {
        admin: instance_data1.admin.clone(),
        usdc_token: instance_data1.usdc_token.clone(),
        platform_fee_bps: 300,
        remittance_counter: 10,
        accumulated_fees: 1000,
        paused: false,
        admin_count: 1,
    };
    let persistent_data = empty_persistent();
    let hash1 = compute_snapshot_hash(&env, &instance_data1, &persistent_data, 1000, 100);
    let hash2 = compute_snapshot_hash(&env, &instance_data2, &persistent_data, 1000, 100);
    assert_ne!(hash1, hash2);
}

#[test]
fn empty_batch_digest_is_sha256_of_the_batch_number() {
    let env = Env::default();
    // The preimage of an empty batch 0 is the four bytes of the number.
    let h = compute_batch_hash(&env, &Vec::new(), 0);
    assert_eq!(hex(&h), "df3f619804a92fdb4057192dc43dd748ea778adc52bc498ce80524c014b81119");
    assert_ne!(compute_batch_hash(&env, &Vec::new(), 1), h);
}

/// A contract with `n` remittances of 1000 at 2.5%: the first settled, the
/// second cancelled, the others pending.
fn populated(env: &Env, n: u64) -> (Storage, Address, Address, Address) {
    let mut store = Storage::new();
    let admin = generated(env);
    let token = generated(env);
    let agent = generated(env);
    let sender = generated(env);
    SwiftRemitContract::initialize(&mut store, &admin, &token, 250).unwrap();
    SwiftRemitContract::register_agent(&mut store, &agent).unwrap();
    let mut transfers = Vec::new();
    for i in 0..n {
        let expiry = if i % 2 == 0 { None } else { Some(5000 + i) };
        SwiftRemitContract::create_remittance(&mut store, &mut transfers, sender.clone(), agent.clone(), 1000, expiry)
            .unwrap();
    }
    if n >= 1 {
        SwiftRemitContract::confirm_payout(&mut store, &mut transfers, 1, 100).unwrap();
    }
    if n >= 2 {
        SwiftRemitContract::cancel_remittance(&mut store, &mut transfers, 2).unwrap();
    }
    (store, admin, token, agent)
}

#[test]
fn export_then_import_restores_the_state() {
    let env = Env::default();
    let (store, admin, token, _agent) = populated(&env, 4);
    let snapshot = export_state(&env, &store, 7777, 42).unwrap();
    assert_eq!(snapshot.version, 1);
    assert_eq!(snapshot.timestamp, 7777);
    assert_eq!(snapshot.ledger_sequence, 42);
    assert_eq!(snapshot.instance_data.admin, admin);
    assert_eq!(snapshot.instance_data.usdc_token, token);
    assert_eq!(snapshot.instance_data.remittance_counter, 4);
    assert_eq!(snapshot.instance_data.accumulated_fees, 25);
    assert_eq!(snapshot.persistent_data.remittances.len(), 4);
    assert_eq!(snapshot.persistent_data.settlement_hashes, vec![1u64]);

    let check = verify_snapshot(&env, &snapshot, 8000);
    assert!(check.valid);
    assert_eq!(check.expected_hash, check.actual_hash);
    assert_eq!(check.timestamp, 8000);

    let mut target = Storage::new();
    import_state(&env, &mut target, snapshot).unwrap();
    for id in 1..=4u64 {
        assert_eq!(
            SwiftRemitContract::get_remittance(&target, id),
            SwiftRemitContract::get_remittance(&store, id)
        );
    }
    assert_eq!(SwiftRemitContract::get_remittance(&target, 1).unwrap().status, RemittanceStatus::Completed);
    assert_eq!(SwiftRemitContract::get_remittance(&target, 2).unwrap().status, RemittanceStatus::Cancelled);
    assert_eq!(SwiftRemitContract::get_accumulated_fees(&target), Ok(25));
    assert_eq!(SwiftRemitContract::get_platform_fee_bps(&target), Ok(250));
    assert_eq!(storage::get_remittance_counter(&target), Ok(4));
    assert_eq!(storage::get_admin(&target), Ok(admin));
    assert!(storage::has_settlement_hash(&target, 1));
    assert!(!storage::has_settlement_hash(&target, 3));
    assert!(!SwiftRemitContract::is_paused(&target));
}

#[test]
fn tampered_snapshot_is_refused() {
    let env = Env::default();
    let (store, _, _, _) = populated(&env, 2);
    let mut snapshot = export_state(&env, &store, 1, 1).unwrap();
    snapshot.instance_data.platform_fee_bps = 0;
    let check = verify_snapshot(&env, &snapshot, 2);
    assert!(!check.valid);
    assert_ne!(check.expected_hash, check.actual_hash);
    let mut target = Storage::new();
    assert_eq!(import_state(&env, &mut target, snapshot), Err(ContractError::InvalidMigrationHash));
    assert!(!storage::has_admin(&target));
    assert_eq!(SwiftRemitContract::get_remittance(&target, 1), Err(ContractError::RemittanceNotFound));
}

#[test]
fn import_into_initialized_contract_is_refused() {
    let env = Env::default();
    let (store, _, _, _) = populated(&env, 1);
    let snapshot = export_state(&env, &store, 1, 1).unwrap();
    let (mut other, _, _, _) = populated(&env, 0);
    assert_eq!(import_state(&env, &mut other, snapshot), Err(ContractError::AlreadyInitialized));
    assert_eq!(SwiftRemitContract::get_remittance(&other, 1), Err(ContractError::RemittanceNotFound));
}

#[test]
fn export_of_uninitialized_contract_fails() {
    let env = Env::default();
    let store = Storage::new();
    assert_eq!(export_state(&env, &store, 1, 1), Err(ContractError::NotInitialized));
}

#[test]
fn batches_cover_the_remittances_in_id_order() {
    let env = Env::default();
    let (store, _, _, _) = populated(&env, 5);
    let b0 = export_batch(&env, &store, 0, 2).unwrap();
    assert_eq!(b0.batch_number, 0);
    assert_eq!(b0.total_batches, 3);
    let ids: Vec<u64> = b0.remittances.iter().map(|r| r.id).collect();
    assert_eq!(ids, vec![1, 2]);
    let b2 = export_batch(&env, &store, 2, 2).unwrap();
    let ids: Vec<u64> = b2.remittances.iter().map(|r| r.id).collect();
    assert_eq!(ids, vec![5]);
    assert_eq!(b2.batch_hash, compute_batch_hash(&env, &b2.remittances, 2));
    assert_eq!(export_batch(&env, &store, 3, 2), Err(ContractError::InvalidMigrationBatch));
    assert_eq!(export_batch(&env, &store, 0, 0), Err(ContractError::InvalidBatchSize));
    assert_eq!(export_batch(&env, &store, 0, 101), Err(ContractError::InvalidBatchSize));
    assert_eq!(export_batch(&env, &Storage::new(), 0, 10), Err(ContractError::NotInitialized));

    let b1 = export_batch(&env, &store, 1, 2).unwrap();
    let mut target = Storage::new();
    assert_eq!(import_batch(&env, &mut target, b2.clone()), Err(ContractError::InvalidMigrationBatch));
    import_batch(&env, &mut target, b0.clone()).unwrap();
    assert_eq!(import_batch(&env, &mut target, b0), Err(ContractError::InvalidMigrationBatch));
    import_batch(&env, &mut target, b1).unwrap();
    import_batch(&env, &mut target, b2).unwrap();
    assert_eq!(storage::get_batches_imported(&target), 3);
    for id in 1..=5u64 {
        assert_eq!(
            SwiftRemitContract::get_remittance(&target, id),
            SwiftRemitContract::get_remittance(&store, id)
        );
    }
}

#[test]
fn tampered_batch_is_refused() {
    let env = Env::default();
    let (store, _, _, _) = populated(&env, 3);
    let mut batch = export_batch(&env, &store, 0, 3).unwrap();
    let mut forged: Remittance = batch.remittances[2].clone();
    forged.amount = 1_000_000;
    batch.remittances[2] = forged;
    let mut target = Storage::new();
    assert_eq!(import_batch(&env, &mut target, batch), Err(ContractError::InvalidMigrationHash));
    assert_eq!(SwiftRemitContract::get_remittance(&target, 1), Err(ContractError::RemittanceNotFound));
}

#[test]
fn import_marks_listed_agents_admins_and_tokens() {
    let env = Env::default();
    let agent = generated(&env);
    let second_admin = generated(&env);
    let token = generated(&env);
    let instance_data = InstanceData {
        admin: generated(&env),
        usdc_token: token.clone(),
        platform_fee_bps: 100,
        remittance_counter: 0,
        accumulated_fees: 0,
        paused: true,
        admin_count: 2,
    };
    let persistent_data = PersistentData {
        remittances: Vec::new(),
        agents: vec![agent.clone()],
        admin_roles: vec![second_admin.clone()],
        settlement_hashes: vec![9],
        whitelisted_tokens: vec![token.clone()],
    };
    let verification_hash = compute_snapshot_hash(&env, &instance_data, &persistent_data, 5, 6);
    let snapshot = swiftremit::MigrationSnapshot {
        version: 1,
        timestamp: 5,
        ledger_sequence: 6,
        instance_data,
        persistent_data,
        verification_hash,
    };
    let mut target = Storage::new();
    import_state(&env, &mut target, snapshot).unwrap();
    assert!(storage::is_agent_registered(&target, &agent));
    assert!(storage::has_admin_role(&target, &second_admin));
    assert!(storage::is_token_whitelisted(&target, &token));
    assert!(!storage::is_token_whitelisted(&target, &agent));
    assert!(storage::has_settlement_hash(&target, 9));
    assert_eq!(storage::get_admin_count(&target), 2);
    assert!(SwiftRemitContract::is_paused(&target));
}

#[test]
fn batches_joined_in_order_are_the_full_export() {
    let env = Env::default();
    let (store, _, _, _) = populated(&env, 7);
    let full = export_state(&env, &store, 1, 1).unwrap().persistent_data.remittances;
    for size in [1u32, 2, 3, 7, 100] {
        let first = export_batch(&env, &store, 0, size).unwrap();
        let mut joined: Vec<Remittance> = Vec::new();
        for n in 0..first.total_batches {
            joined.extend(export_batch(&env, &store, n, size).unwrap().remittances);
        }
        assert_eq!(joined, full);
    }
}
