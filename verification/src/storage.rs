//! The contract's storage: configuration, remittances, per-address flags,
//! settlement markers, transaction records and anchor mappings.
//!
//! [`Storage`] holds everything the contract keeps; [`StorageModel`] is its
//! abstract content, over which every contract of this crate is stated.

use std::collections::{HashMap, HashSet};

use vstd::prelude::*;

use crate::address_map::AddressMap;
use crate::asset_verification::{AssetRegistry, AssetVerification, AssetVerificationView};
use crate::errors::ContractError;
use crate::rate_limit::{RateLimitConfig, RateLimitEntry};
use crate::transaction_controller::{TransactionRecord, TransactionRecordView};
use crate::types::{Address, Remittance, RemittanceView};

verus! {

broadcast use vstd::std_specs::hash::group_hash_axioms;

/// The abstract content of the contract's storage.
pub struct StorageModel {
    /// Administrator.
    pub admin: Option<Seq<u8>>,
    /// The USDC token contract.
    pub usdc_token: Option<Seq<u8>>,
    /// Platform fee in basis points.
    pub platform_fee_bps: Option<u32>,
    /// Id of the most recently created remittance.
    pub remittance_counter: Option<u64>,
    /// Fees collected and not yet withdrawn.
    pub accumulated_fees: Option<i128>,
    /// Whether settlements are paused.
    pub paused: bool,
    /// Remittances by id.
    pub remittances: Map<u64, RemittanceView>,
    /// Agent registration flags.
    pub agents: Map<Seq<u8>, bool>,
    /// Ids of the remittances that were settled.
    pub settlement_hashes: Set<u64>,
    /// Blacklist flags.
    pub blacklisted: Map<Seq<u8>, bool>,
    /// KYC approval flags.
    pub kyc_approved: Map<Seq<u8>, bool>,
    /// KYC expiry times.
    pub kyc_expiry: Map<Seq<u8>, u64>,
    /// Transaction records by remittance id.
    pub transaction_records: Map<u64, TransactionRecordView>,
    /// Anchor operation id to remittance id.
    pub anchor_transactions: Map<u64, u64>,
    /// Rate limit configuration.
    pub rate_limit_config: Option<RateLimitConfig>,
    /// Rate limit entries per address.
    pub rate_limit_entries: Map<Seq<u8>, RateLimitEntry>,
    /// Number of admins.
    pub admin_count: u32,
    /// Admin role flags.
    pub admin_roles: Map<Seq<u8>, bool>,
    /// Token whitelist flags.
    pub whitelisted_tokens: Map<Seq<u8>, bool>,
    /// Asset verification records by (asset code, issuer).
    pub asset_verifications: Map<(Seq<char>, Seq<u8>), AssetVerificationView>,
    /// Number of migration batches imported so far.
    pub batches_imported: u64,
}

/// The view of an optional address.
pub open spec fn opt_address(a: Option<Address>) -> Option<Seq<u8>> {
    match a {
        Some(x) => Some(x@),
        None => None,
    }
}

/// Everything the contract keeps in storage.
pub struct Storage {
    admin: Option<Address>,
    usdc_token: Option<Address>,
    platform_fee_bps: Option<u32>,
    remittance_counter: Option<u64>,
    accumulated_fees: Option<i128>,
    paused: bool,
    remittances: HashMap<u64, Remittance>,
    agents: AddressMap<bool>,
    settlement_hashes: HashSet<u64>,
    blacklisted: AddressMap<bool>,
    kyc_approved: AddressMap<bool>,
    kyc_expiry: AddressMap<u64>,
    transaction_records: HashMap<u64, TransactionRecord>,
    anchor_transactions: HashMap<u64, u64>,
    rate_limit_config: Option<RateLimitConfig>,
    rate_limit_entries: AddressMap<RateLimitEntry>,
    admin_count: u32,
    admin_roles: AddressMap<bool>,
    whitelisted_tokens: AddressMap<bool>,
    assets: AssetRegistry,
    batches_imported: u64,
}

impl View for Storage {
    type V = StorageModel;

    closed spec fn view(&self) -> StorageModel {
        StorageModel {
            admin: opt_address(self.admin),
            usdc_token: opt_address(self.usdc_token),
            platform_fee_bps: self.platform_fee_bps,
            remittance_counter: self.remittance_counter,
            accumulated_fees: self.accumulated_fees,
            paused: self.paused,
            remittances: self.remittances@.map_values(|r: Remittance| r@),
            agents: self.agents@,
            settlement_hashes: self.settlement_hashes@,
            blacklisted: self.blacklisted@,
            kyc_approved: self.kyc_approved@,
            kyc_expiry: self.kyc_expiry@,
            transaction_records: self.transaction_records@.map_values(|t: TransactionRecord| t@),
            anchor_transactions: self.anchor_transactions@,
            rate_limit_config: self.rate_limit_config,
            rate_limit_entries: self.rate_limit_entries@,
            admin_count: self.admin_count,
            admin_roles: self.admin_roles@,
            whitelisted_tokens: self.whitelisted_tokens@,
            asset_verifications: self.assets@,
            batches_imported: self.batches_imported,
        }
    }
}

/// The storage of a freshly deployed contract: nothing stored.
pub open spec fn empty_model() -> StorageModel {
    StorageModel {
        admin: None,
        usdc_token: None,
        platform_fee_bps: None,
        remittance_counter: None,
        accumulated_fees: None,
        paused: false,
        remittances: Map::empty(),
        agents: Map::empty(),
        settlement_hashes: Set::empty(),
        blacklisted: Map::empty(),
        kyc_approved: Map::empty(),
        kyc_expiry: Map::empty(),
        transaction_records: Map::empty(),
        anchor_transactions: Map::empty(),
        rate_limit_config: None,
        rate_limit_entries: Map::empty(),
        admin_count: 0,
        admin_roles: Map::empty(),
        whitelisted_tokens: Map::empty(),
        asset_verifications: Map::empty(),
        batches_imported: 0,
    }
}

impl Storage {
    /// Storage of a freshly deployed contract.
    pub fn new() -> (s: Storage)
        ensures
            s@ == empty_model(),
    {
        let s = Storage {
            admin: None,
            usdc_token: None,
            platform_fee_bps: None,
            remittance_counter: None,
            accumulated_fees: None,
            paused: false,
            remittances: HashMap::new(),
            agents: AddressMap::new(),
            settlement_hashes: HashSet::new(),
            blacklisted: AddressMap::new(),
            kyc_approved: AddressMap::new(),
            kyc_expiry: AddressMap::new(),
            transaction_records: HashMap::new(),
            anchor_transactions: HashMap::new(),
            rate_limit_config: None,
            rate_limit_entries: AddressMap::new(),
            admin_count: 0,
            admin_roles: AddressMap::new(),
            whitelisted_tokens: AddressMap::new(),
            assets: AssetRegistry::new(),
            batches_imported: 0,
        };
        assert(s@.remittances =~= Map::<u64, RemittanceView>::empty());
        assert(s@.transaction_records =~= Map::<u64, TransactionRecordView>::empty());
        s
    }

    /// Only finitely many remittances are stored.
    pub proof fn lemma_finite_remittances(&self)
        ensures
            self@.remittances.dom().finite(),
    {
        assert(self@.remittances.dom() =~= self.remittances@.dom());
    }
}

/// Whether an admin is stored.
pub fn has_admin(store: &Storage) -> (b: bool)
    ensures
        b == store@.admin is Some,
{
    store.admin.is_some()
}

/// Stores `admin` as the administrator.
pub fn set_admin(store: &mut Storage, admin: &Address)
    ensures
        final(store)@ == (StorageModel { admin: Some(admin@), ..old(store)@ }),
{
    store.admin = Some(admin.duplicate());
}

/// The administrator, or `NotInitialized`.
pub fn get_admin(store: &Storage) -> (r: Result<Address, ContractError>)
    ensures
        match store@.admin {
            Some(a) => r matches Ok(x) && x@ == a,
            None => r == Err::<Address, ContractError>(ContractError::NotInitialized),
        },
{
    match &store.admin {
        Some(a) => Ok(a.duplicate()),
        None => Err(ContractError::NotInitialized),
    }
}

/// Stores the USDC token address.
pub fn set_usdc_token(store: &mut Storage, token: &Address)
    ensures
        final(store)@ == (StorageModel { usdc_token: Some(token@), ..old(store)@ }),
{
    store.usdc_token = Some(token.duplicate());
}

/// The USDC token address, or `NotInitialized`.
pub fn get_usdc_token(store: &Storage) -> (r: Result<Address, ContractError>)
    ensures
        match store@.usdc_token {
            Some(a) => r matches Ok(x) && x@ == a,
            None => r == Err::<Address, ContractError>(ContractError::NotInitialized),
        },
{
    match &store.usdc_token {
        Some(a) => Ok(a.duplicate()),
        None => Err(ContractError::NotInitialized),
    }
}

/// Stores the platform fee.
pub fn set_platform_fee_bps(store: &mut Storage, fee_bps: u32)
    ensures
        final(store)@ == (StorageModel { platform_fee_bps: Some(fee_bps), ..old(store)@ }),
{
    store.platform_fee_bps = Some(fee_bps);
}

/// The platform fee, or `NotInitialized`.
pub fn get_platform_fee_bps(store: &Storage) -> (r: Result<u32, ContractError>)
    ensures
        r == (match store@.platform_fee_bps {
            Some(f) => Ok(f),
            None => Err(ContractError::NotInitialized),
        }),
{
    match store.platform_fee_bps {
        Some(f) => Ok(f),
        None => Err(ContractError::NotInitialized),
    }
}

/// Stores the remittance counter.
pub fn set_remittance_counter(store: &mut Storage, counter: u64)
    ensures
        final(store)@ == (StorageModel { remittance_counter: Some(counter), ..old(store)@ }),
{
    store.remittance_counter = Some(counter);
}

/// The remittance counter, or `NotInitialized`.
pub fn get_remittance_counter(store: &Storage) -> (r: Result<u64, ContractError>)
    ensures
        r == (match store@.remittance_counter {
            Some(c) => Ok(c),
            None => Err(ContractError::NotInitialized),
        }),
{
    match store.remittance_counter {
        Some(c) => Ok(c),
        None => Err(ContractError::NotInitialized),
    }
}

/// Stores `remittance` under `id`.
pub fn set_remittance(store: &mut Storage, id: u64, remittance: &Remittance)
    ensures
        final(store)@ == (StorageModel {
            remittances: old(store)@.remittances.insert(id, remittance@),
            ..old(store)@
        }),
{
    let r = remittance.duplicate();
    store.remittances.insert(id, r);
    assert(store@.remittances =~= old(store)@.remittances.insert(id, remittance@));
}

/// The remittance stored under `id`, or `RemittanceNotFound`.
pub fn get_remittance(store: &Storage, id: u64) -> (r: Result<Remittance, ContractError>)
    ensures
        store@.remittances.contains_key(id) <==> r is Ok,
        r matches Ok(x) ==> x@ == store@.remittances[id],
        r is Err ==> r == Err::<Remittance, ContractError>(ContractError::RemittanceNotFound),
{
    match store.remittances.get(&id) {
        Some(x) => Ok(x.duplicate()),
        None => Err(ContractError::RemittanceNotFound),
    }
}

/// Stores whether `agent` is registered.
pub fn set_agent_registered(store: &mut Storage, agent: &Address, registered: bool)
    ensures
        final(store)@ == (StorageModel { agents: old(store)@.agents.insert(agent@, registered), ..old(store)@ }),
{
    store.agents.insert(agent.duplicate(), registered);
}

/// Whether a map of flags holds `true` for `key` (absent keys are `false`).
pub open spec fn flag_set(m: Map<Seq<u8>, bool>, key: Seq<u8>) -> bool {
    m.contains_key(key) && m[key]
}

/// Whether `agent` is registered.
pub fn is_agent_registered(store: &Storage, agent: &Address) -> (b: bool)
    ensures
        b == flag_set(store@.agents, agent@),
{
    match store.agents.get(agent) {
        Some(v) => v,
        None => false,
    }
}

/// Stores the accumulated fees.
pub fn set_accumulated_fees(store: &mut Storage, fees: i128)
    ensures
        final(store)@ == (StorageModel { accumulated_fees: Some(fees), ..old(store)@ }),
{
    store.accumulated_fees = Some(fees);
}

/// The accumulated fees, or `NotInitialized`.
pub fn get_accumulated_fees(store: &Storage) -> (r: Result<i128, ContractError>)
    ensures
        r == (match store@.accumulated_fees {
            Some(f) => Ok(f),
            None => Err(ContractError::NotInitialized),
        }),
{
    match store.accumulated_fees {
        Some(f) => Ok(f),
        None => Err(ContractError::NotInitialized),
    }
}

/// Whether remittance `remittance_id` was marked settled.
pub fn has_settlement_hash(store: &Storage, remittance_id: u64) -> (b: bool)
    ensures
        b == store@.settlement_hashes.contains(remittance_id),
{
    store.settlement_hashes.contains(&remittance_id)
}

/// Marks remittance `remittance_id` settled.
pub fn set_settlement_hash(store: &mut Storage, remittance_id: u64)
    ensures
        final(store)@ == (StorageModel {
            settlement_hashes: old(store)@.settlement_hashes.insert(remittance_id),
            ..old(store)@
        }),
{
    store.settlement_hashes.insert(remittance_id);
}

/// Whether settlements are paused.
pub fn is_paused(store: &Storage) -> (b: bool)
    ensures
        b == store@.paused,
{
    store.paused
}

/// Stores whether settlements are paused.
pub fn set_paused(store: &mut Storage, paused: bool)
    ensures
        final(store)@ == (StorageModel { paused, ..old(store)@ }),
{
    store.paused = paused;
}

/// Whether `user` is blacklisted.
pub fn is_user_blacklisted(store: &Storage, user: &Address) -> (b: bool)
    ensures
        b == flag_set(store@.blacklisted, user@),
{
    match store.blacklisted.get(user) {
        Some(v) => v,
        None => false,
    }
}

/// Stores whether `user` is blacklisted.
pub fn set_user_blacklisted(store: &mut Storage, user: &Address, blacklisted: bool)
    ensures
        final(store)@ == (StorageModel {
            blacklisted: old(store)@.blacklisted.insert(user@, blacklisted),
            ..old(store)@
        }),
{
    store.blacklisted.insert(user.duplicate(), blacklisted);
}

/// Whether `user`'s KYC is approved (regardless of expiry).
pub fn is_kyc_approved(store: &Storage, user: &Address) -> (b: bool)
    ensures
        b == flag_set(store@.kyc_approved, user@),
{
    match store.kyc_approved.get(user) {
        Some(v) => v,
        None => false,
    }
}

/// Stores whether `user`'s KYC is approved.
pub fn set_kyc_approved(store: &mut Storage, user: &Address, approved: bool)
    ensures
        final(store)@ == (StorageModel {
            kyc_approved: old(store)@.kyc_approved.insert(user@, approved),
            ..old(store)@
        }),
{
    store.kyc_approved.insert(user.duplicate(), approved);
}

/// Whether `user`'s KYC expiry is stored and lies before `now`.
pub open spec fn kyc_expired(m: StorageModel, user: Seq<u8>, now: u64) -> bool {
    m.kyc_expiry.contains_key(user) && now > m.kyc_expiry[user]
}

/// Whether `user`'s KYC has expired at ledger time `now`.
pub fn is_kyc_expired(store: &Storage, user: &Address, now: u64) -> (b: bool)
    ensures
        b == kyc_expired(store@, user@, now),
{
    match store.kyc_expiry.get(user) {
        Some(expiry) => now > expiry,
        None => false,
    }
}

/// Stores `user`'s KYC expiry time.
pub fn set_kyc_expiry(store: &mut Storage, user: &Address, expiry: u64)
    ensures
        final(store)@ == (StorageModel {
            kyc_expiry: old(store)@.kyc_expiry.insert(user@, expiry),
            ..old(store)@
        }),
{
    store.kyc_expiry.insert(user.duplicate(), expiry);
}

/// Stores the transaction record of remittance `remittance_id`.
pub fn set_transaction_record(store: &mut Storage, remittance_id: u64, record: &TransactionRecord) -> (r: Result<(), ContractError>)
    ensures
        r is Ok,
        final(store)@ == (StorageModel {
            transaction_records: old(store)@.transaction_records.insert(remittance_id, record@),
            ..old(store)@
        }),
{
    store.transaction_records.insert(remittance_id, record.duplicate());
    assert(store@.transaction_records =~= old(store)@.transaction_records.insert(remittance_id, record@));
    Ok(())
}

/// The transaction record of remittance `remittance_id`, or `TransactionNotFound`.
pub fn get_transaction_record(store: &Storage, remittance_id: u64) -> (r: Result<TransactionRecord, ContractError>)
    ensures
        store@.transaction_records.contains_key(remittance_id) <==> r is Ok,
        r matches Ok(x) ==> x@ == store@.transaction_records[remittance_id],
        r is Err ==> r == Err::<TransactionRecord, ContractError>(ContractError::TransactionNotFound),
{
    match store.transaction_records.get(&remittance_id) {
        Some(x) => Ok(x.duplicate()),
        None => Err(ContractError::TransactionNotFound),
    }
}

/// Maps anchor operation `anchor_tx_id` to remittance `remittance_id`.
pub fn set_anchor_transaction(store: &mut Storage, anchor_tx_id: u64, remittance_id: u64) -> (r: Result<(), ContractError>)
    ensures
        r is Ok,
        final(store)@ == (StorageModel {
            anchor_transactions: old(store)@.anchor_transactions.insert(anchor_tx_id, remittance_id),
            ..old(store)@
        }),
{
    store.anchor_transactions.insert(anchor_tx_id, remittance_id);
    Ok(())
}

/// The remittance of anchor operation `anchor_tx_id`, or `TransactionNotFound`.
pub fn get_anchor_transaction(store: &Storage, anchor_tx_id: u64) -> (r: Result<u64, ContractError>)
    ensures
        r == (if store@.anchor_transactions.contains_key(anchor_tx_id) {
            Ok(store@.anchor_transactions[anchor_tx_id])
        } else {
            Err(ContractError::TransactionNotFound)
        }),
{
    match store.anchor_transactions.get(&anchor_tx_id) {
        Some(x) => Ok(*x),
        None => Err(ContractError::TransactionNotFound),
    }
}

/// Removes the mapping of anchor operation `anchor_tx_id`.
pub fn remove_anchor_transaction(store: &mut Storage, anchor_tx_id: u64) -> (r: Result<(), ContractError>)
    ensures
        r is Ok,
        final(store)@ == (StorageModel {
            anchor_transactions: old(store)@.anchor_transactions.remove(anchor_tx_id),
            ..old(store)@
        }),
{
    store.anchor_transactions.remove(&anchor_tx_id);
    Ok(())
}

/// The number of admins.
pub fn get_admin_count(store: &Storage) -> (c: u32)
    ensures
        c == store@.admin_count,
{
    store.admin_count
}

/// Stores the number of admins.
pub fn set_admin_count(store: &mut Storage, count: u32)
    ensures
        final(store)@ == (StorageModel { admin_count: count, ..old(store)@ }),
{
    store.admin_count = count;
}

/// Whether `admin` holds the admin role.
pub fn has_admin_role(store: &Storage, admin: &Address) -> (b: bool)
    ensures
        b == flag_set(store@.admin_roles, admin@),
{
    match store.admin_roles.get(admin) {
        Some(v) => v,
        None => false,
    }
}

/// Stores whether `admin` holds the admin role.
pub fn set_admin_role(store: &mut Storage, admin: &Address, is_admin: bool)
    ensures
        final(store)@ == (StorageModel {
            admin_roles: old(store)@.admin_roles.insert(admin@, is_admin),
            ..old(store)@
        }),
{
    store.admin_roles.insert(admin.duplicate(), is_admin);
}

/// Whether `token` is whitelisted.
pub fn is_token_whitelisted(store: &Storage, token: &Address) -> (b: bool)
    ensures
        b == flag_set(store@.whitelisted_tokens, token@),
{
    match store.whitelisted_tokens.get(token) {
        Some(v) => v,
        None => false,
    }
}

/// Stores whether `token` is whitelisted.
pub fn set_token_whitelisted(store: &mut Storage, token: &Address, whitelisted: bool)
    ensures
        final(store)@ == (StorageModel {
            whitelisted_tokens: old(store)@.whitelisted_tokens.insert(token@, whitelisted),
            ..old(store)@
        }),
{
    store.whitelisted_tokens.insert(token.duplicate(), whitelisted);
}

/// The stored rate limit configuration, if any.
pub fn stored_rate_limit_config(store: &Storage) -> (c: Option<RateLimitConfig>)
    ensures
        c == store@.rate_limit_config,
{
    store.rate_limit_config
}

/// Stores the rate limit configuration.
pub fn store_rate_limit_config(store: &mut Storage, config: RateLimitConfig)
    ensures
        final(store)@ == (StorageModel { rate_limit_config: Some(config), ..old(store)@ }),
{
    store.rate_limit_config = Some(config);
}

/// The rate limit entry of `address`, if any.
pub fn rate_limit_entry(store: &Storage, address: &Address) -> (e: Option<RateLimitEntry>)
    ensures
        e == (if store@.rate_limit_entries.contains_key(address@) {
            Some(store@.rate_limit_entries[address@])
        } else {
            None::<RateLimitEntry>
        }),
{
    store.rate_limit_entries.get(address)
}

/// Stores the rate limit entry of `address`.
pub fn set_rate_limit_entry(store: &mut Storage, address: Address, entry: RateLimitEntry)
    ensures
        final(store)@ == (StorageModel {
            rate_limit_entries: old(store)@.rate_limit_entries.insert(address@, entry),
            ..old(store)@
        }),
{
    store.rate_limit_entries.insert(address, entry);
}

/// The asset verification record of `(asset_code, issuer)`, if any.
pub fn stored_asset_verification(store: &Storage, asset_code: &String, issuer: &Address) -> (r: Option<AssetVerification>)
    ensures
        store@.asset_verifications.contains_key((asset_code@, issuer@)) <==> r is Some,
        r matches Some(v) ==> v@ == store@.asset_verifications[(asset_code@, issuer@)],
{
    store.assets.get(asset_code, issuer)
}

/// Stores an asset verification record under its asset code and issuer.
pub fn store_asset_verification(store: &mut Storage, record: AssetVerification)
    ensures
        final(store)@ == (StorageModel {
            asset_verifications: old(store)@.asset_verifications.insert((record@.asset_code, record@.issuer), record@),
            ..old(store)@
        }),
{
    store.assets.insert(record);
}

/// The number of migration batches imported so far.
pub fn get_batches_imported(store: &Storage) -> (n: u64)
    ensures
        n == store@.batches_imported,
{
    store.batches_imported
}

/// Stores the number of migration batches imported so far.
pub fn set_batches_imported(store: &mut Storage, n: u64)
    ensures
        final(store)@ == (StorageModel { batches_imported: n, ..old(store)@ }),
{
    store.batches_imported = n;
}

} // verus!
