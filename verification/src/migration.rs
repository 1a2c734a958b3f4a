//! Export and import of the contract's state, whole or in batches, each
//! protected by a SHA-256 digest of its canonical encoding.

use vstd::prelude::*;

use crate::errors::ContractError;
use crate::hashing::{
    address_to_bytes, i128_be, lemma_concat_split, lemma_i128_be_injective, lemma_u32_be_injective, lemma_u64_be_injective, push_i128_be, push_u32_be, push_u64_be, sha256, sha256_digest, u32_be, u64_be,
};
use crate::storage::{
    get_accumulated_fees, get_admin, get_admin_count, get_platform_fee_bps, get_remittance, get_remittance_counter,
    get_batches_imported, get_usdc_token, has_admin, has_settlement_hash, is_paused, set_accumulated_fees, set_admin, set_admin_count,
    set_admin_role, set_agent_registered, set_batches_imported, set_paused, set_platform_fee_bps, set_remittance, set_remittance_counter,
    set_settlement_hash, set_token_whitelisted, set_usdc_token, Storage, StorageModel,
};
use crate::types::{Address, Remittance, RemittanceStatus, RemittanceView};

verus! {

/// The most remittances exported or imported in one batch.
pub const MAX_MIGRATION_BATCH_SIZE: u32 = 100;

/// Schema version of snapshots.
pub const SNAPSHOT_VERSION: u32 = 1;

/// Contract-level configuration in a snapshot.
#[derive(Clone, Debug, PartialEq, Eq)]
pub struct InstanceData {
    /// Administrator.
    pub admin: Address,
    /// USDC token contract.
    pub usdc_token: Address,
    /// Platform fee in basis points.
    pub platform_fee_bps: u32,
    /// Remittance counter.
    pub remittance_counter: u64,
    /// Collected fees.
    pub accumulated_fees: i128,
    /// Whether settlements are paused.
    pub paused: bool,
    /// Number of admins.
    pub admin_count: u32,
}

/// The abstract content of [`InstanceData`].
pub struct InstanceDataView {
    pub admin: Seq<u8>,
    pub usdc_token: Seq<u8>,
    pub platform_fee_bps: u32,
    pub remittance_counter: u64,
    pub accumulated_fees: i128,
    pub paused: bool,
    pub admin_count: u32,
}

impl View for InstanceData {
    type V = InstanceDataView;

    open spec fn view(&self) -> InstanceDataView {
        InstanceDataView {
            admin: self.admin@,
            usdc_token: self.usdc_token@,
            platform_fee_bps: self.platform_fee_bps,
            remittance_counter: self.remittance_counter,
            accumulated_fees: self.accumulated_fees,
            paused: self.paused,
            admin_count: self.admin_count,
        }
    }
}

/// Per-entity data in a snapshot.
#[derive(Clone, Debug, PartialEq, Eq)]
pub struct PersistentData {
    /// Remittances.
    pub remittances: Vec<Remittance>,
    /// Registered agents.
    pub agents: Vec<Address>,
    /// Admins.
    pub admin_roles: Vec<Address>,
    /// Ids of settled remittances.
    pub settlement_hashes: Vec<u64>,
    /// Whitelisted tokens.
    pub whitelisted_tokens: Vec<Address>,
}

/// The views of a sequence of remittances.
pub open spec fn remittance_views(s: Seq<Remittance>) -> Seq<RemittanceView> {
    s.map_values(|r: Remittance| r@)
}

/// The views of a sequence of addresses.
pub open spec fn address_views(s: Seq<Address>) -> Seq<Seq<u8>> {
    s.map_values(|a: Address| a@)
}

/// The abstract content of [`PersistentData`].
pub struct PersistentDataView {
    pub remittances: Seq<RemittanceView>,
    pub agents: Seq<Seq<u8>>,
    pub admin_roles: Seq<Seq<u8>>,
    pub settlement_hashes: Seq<u64>,
    pub whitelisted_tokens: Seq<Seq<u8>>,
}

impl View for PersistentData {
    type V = PersistentDataView;

    open spec fn view(&self) -> PersistentDataView {
        PersistentDataView {
            remittances: remittance_views(self.remittances@),
            agents: address_views(self.agents@),
            admin_roles: address_views(self.admin_roles@),
            settlement_hashes: self.settlement_hashes@,
            whitelisted_tokens: address_views(self.whitelisted_tokens@),
        }
    }
}

/// A complete, verifiable copy of the contract's state.
#[derive(Clone, Debug, PartialEq, Eq)]
pub struct MigrationSnapshot {
    /// Schema version.
    pub version: u32,
    /// Ledger time of the export.
    pub timestamp: u64,
    /// Ledger sequence of the export.
    pub ledger_sequence: u32,
    /// Configuration.
    pub instance_data: InstanceData,
    /// Per-entity data.
    pub persistent_data: PersistentData,
    /// Digest of all of the above.
    pub verification_hash: [u8; 32],
}

/// Some remittances exported together.
#[derive(Clone, Debug, PartialEq, Eq)]
pub struct MigrationBatch {
    /// Batch number, from 0.
    pub batch_number: u32,
    /// Number of batches.
    pub total_batches: u32,
    /// The remittances of this batch.
    pub remittances: Vec<Remittance>,
    /// Digest of the batch number and the remittances.
    pub batch_hash: [u8; 32],
}

/// Outcome of checking a snapshot against its digest.
#[derive(Clone, Copy, Debug, PartialEq, Eq)]
pub struct MigrationVerification {
    /// Whether the digest matches.
    pub valid: bool,
    /// The digest the snapshot carries.
    pub expected_hash: [u8; 32],
    /// The digest of the snapshot's contents.
    pub actual_hash: [u8; 32],
    /// Ledger time of the check.
    pub timestamp: u64,
}

/// The byte that encodes a status in a digest.
pub open spec fn status_byte(s: RemittanceStatus) -> u8 {
    match s {
        RemittanceStatus::Pending => 0,
        RemittanceStatus::Completed => 1,
        RemittanceStatus::Cancelled => 2,
        RemittanceStatus::Initiated => 3,
        RemittanceStatus::Submitted => 4,
        RemittanceStatus::PendingAnchor => 5,
        RemittanceStatus::Failed => 6,
    }
}

/// The encoding of one remittance in a digest; the expiry only when present.
pub open spec fn remittance_bytes(r: RemittanceView) -> Seq<u8> {
    u64_be(r.id) + r.sender + r.agent + i128_be(r.amount) + i128_be(r.fee) + seq![status_byte(r.status)]
        + match r.expiry {
        Some(e) => u64_be(e),
        None => Seq::empty(),
    }
}

/// The encodings of remittances, one after the other.
pub open spec fn remittances_bytes(s: Seq<RemittanceView>) -> Seq<u8>
    decreases s.len(),
{
    if s.len() == 0 {
        Seq::empty()
    } else {
        remittances_bytes(s.drop_last()) + remittance_bytes(s.last())
    }
}

/// The encodings of addresses, one after the other.
pub open spec fn addresses_bytes(s: Seq<Seq<u8>>) -> Seq<u8>
    decreases s.len(),
{
    if s.len() == 0 {
        Seq::empty()
    } else {
        addresses_bytes(s.drop_last()) + s.last()
    }
}

/// The big-endian encodings of ids, one after the other.
pub open spec fn ids_bytes(s: Seq<u64>) -> Seq<u8>
    decreases s.len(),
{
    if s.len() == 0 {
        Seq::empty()
    } else {
        ids_bytes(s.drop_last()) + u64_be(s.last())
    }
}

/// The bytes hashed into a snapshot's digest.
pub open spec fn snapshot_preimage(i: InstanceDataView, p: PersistentDataView, timestamp: u64, ledger_sequence: u32) -> Seq<u8> {
    i.admin + i.usdc_token + u32_be(i.platform_fee_bps) + u64_be(i.remittance_counter) + i128_be(i.accumulated_fees)
        + seq![if i.paused { 1u8 } else { 0u8 }] + u32_be(i.admin_count) + remittances_bytes(p.remittances)
        + addresses_bytes(p.agents) + addresses_bytes(p.admin_roles) + ids_bytes(p.settlement_hashes)
        + addresses_bytes(p.whitelisted_tokens) + u64_be(timestamp) + u32_be(ledger_sequence)
}

/// Whether a snapshot carries the digest of its own contents.
pub open spec fn snapshot_consistent(s: MigrationSnapshot) -> bool {
    s.verification_hash@ == sha256_digest(
        snapshot_preimage(s.instance_data@, s.persistent_data@, s.timestamp, s.ledger_sequence),
    )
}

/// The bytes hashed into a batch's digest.
pub open spec fn batch_preimage(remittances: Seq<RemittanceView>, batch_number: u32) -> Seq<u8> {
    u32_be(batch_number) + remittances_bytes(remittances)
}

/// Whether a batch carries the digest of its own contents.
pub open spec fn batch_consistent(b: MigrationBatch) -> bool {
    b.batch_hash@ == sha256_digest(batch_preimage(remittance_views(b.remittances@), b.batch_number))
}

/// The remittances of `m` with ids from `start` to `end`, in id order.
pub open spec fn remittances_in_range(m: Map<u64, RemittanceView>, start: int, end: int) -> Seq<RemittanceView>
    decreases end + 1 - start,
{
    if end < start {
        Seq::empty()
    } else {
        remittances_in_range(m, start, end - 1) + if m.contains_key(end as u64) {
            seq![m[end as u64]]
        } else {
            Seq::empty()
        }
    }
}

/// The ids from `start` to `end` that are in `settled`, in order.
pub open spec fn settled_in_range(settled: Set<u64>, start: int, end: int) -> Seq<u64>
    decreases end + 1 - start,
{
    if end < start {
        Seq::empty()
    } else {
        settled_in_range(settled, start, end - 1) + if settled.contains(end as u64) {
            seq![end as u64]
        } else {
            Seq::empty()
        }
    }
}

/// `m` with the remittances of `s` stored, in order, under their ids.
pub open spec fn stored_remittances(m: Map<u64, RemittanceView>, s: Seq<RemittanceView>) -> Map<u64, RemittanceView>
    decreases s.len(),
{
    if s.len() == 0 {
        m
    } else {
        stored_remittances(m, s.drop_last()).insert(s.last().id, s.last())
    }
}

/// `m` with the flag of every address of `s` set.
pub open spec fn flags_set(m: Map<Seq<u8>, bool>, s: Seq<Seq<u8>>) -> Map<Seq<u8>, bool>
    decreases s.len(),
{
    if s.len() == 0 {
        m
    } else {
        flags_set(m, s.drop_last()).insert(s.last(), true)
    }
}

/// `m` with the ids of `s` added.
pub open spec fn ids_added(m: Set<u64>, s: Seq<u64>) -> Set<u64>
    decreases s.len(),
{
    if s.len() == 0 {
        m
    } else {
        ids_added(m, s.drop_last()).insert(s.last())
    }
}

/// The storage after importing `i` and `p` into `m`.
pub open spec fn imported_model(m: StorageModel, i: InstanceDataView, p: PersistentDataView) -> StorageModel {
    StorageModel {
        admin: Some(i.admin),
        usdc_token: Some(i.usdc_token),
        platform_fee_bps: Some(i.platform_fee_bps),
        remittance_counter: Some(i.remittance_counter),
        accumulated_fees: Some(i.accumulated_fees),
        paused: i.paused,
        admin_count: i.admin_count,
        remittances: stored_remittances(m.remittances, p.remittances),
        agents: flags_set(m.agents, p.agents),
        admin_roles: flags_set(m.admin_roles, p.admin_roles),
        settlement_hashes: ids_added(m.settlement_hashes, p.settlement_hashes),
        whitelisted_tokens: flags_set(m.whitelisted_tokens, p.whitelisted_tokens),
        ..m
    }
}

/// The configuration that a snapshot of `m` records.
pub open spec fn exported_instance(m: StorageModel) -> InstanceDataView {
    InstanceDataView {
        admin: m.admin.unwrap(),
        usdc_token: m.usdc_token.unwrap(),
        platform_fee_bps: m.platform_fee_bps.unwrap(),
        remittance_counter: m.remittance_counter.unwrap(),
        accumulated_fees: m.accumulated_fees.unwrap(),
        paused: m.paused,
        admin_count: m.admin_count,
    }
}

/// The per-entity data that a snapshot of `m` records: the remittances with
/// ids `1..=counter` and the settled ids among them.
pub open spec fn exported_persistent(m: StorageModel) -> PersistentDataView {
    PersistentDataView {
        remittances: remittances_in_range(m.remittances, 1, m.remittance_counter.unwrap() as int),
        agents: Seq::empty(),
        admin_roles: Seq::empty(),
        settlement_hashes: settled_in_range(m.settlement_hashes, 1, m.remittance_counter.unwrap() as int),
        whitelisted_tokens: Seq::empty(),
    }
}

/// Whether the remittances of `m` with keys `start..=end` carry distinct ids.
pub open spec fn ids_distinct_in_range(m: Map<u64, RemittanceView>, start: int, end: int) -> bool {
    forall|k1: u64, k2: u64|
        start <= k1 <= end && start <= k2 <= end && k1 != k2 && #[trigger] m.contains_key(k1) && #[trigger] m.contains_key(
            k2,
        ) ==> m[k1].id != m[k2].id
}

/// Whether `i` is the id of a remittance of `m` with a key in `start..=end`.
pub open spec fn exported_id(m: Map<u64, RemittanceView>, start: int, end: int, i: u64) -> bool {
    exists|k: u64| start <= k <= end && #[trigger] m.contains_key(k) && m[k].id == i
}

/// Whether `m` holds all the configuration a snapshot records.
pub open spec fn exportable(m: StorageModel) -> bool {
    &&& m.admin is Some
    &&& m.usdc_token is Some
    &&& m.platform_fee_bps is Some
    &&& m.remittance_counter is Some
    &&& m.accumulated_fees is Some
}

/// Appends the encoding of `r`.
fn push_remittance(out: &mut Vec<u8>, r: &Remittance)
    ensures
        final(out)@ == old(out)@ + remittance_bytes(r@),
{
    push_u64_be(out, r.id);
    let mut sender = address_to_bytes(&r.sender);
    out.append(&mut sender);
    let mut agent = address_to_bytes(&r.agent);
    out.append(&mut agent);
    push_i128_be(out, r.amount);
    push_i128_be(out, r.fee);
    let status_byte: u8 = match r.status {
        RemittanceStatus::Pending => 0,
        RemittanceStatus::Completed => 1,
        RemittanceStatus::Cancelled => 2,
        RemittanceStatus::Initiated => 3,
        RemittanceStatus::Submitted => 4,
        RemittanceStatus::PendingAnchor => 5,
        RemittanceStatus::Failed => 6,
    };
    out.push(status_byte);
    if let Some(expiry) = r.expiry {
        push_u64_be(out, expiry);
    }
    assert(out@ =~= old(out)@ + remittance_bytes(r@));
}

/// Appends the encodings of `v`.
fn push_remittances(out: &mut Vec<u8>, v: &Vec<Remittance>)
    ensures
        final(out)@ == old(out)@ + remittances_bytes(remittance_views(v@)),
{
    let ghost views = remittance_views(v@);
    let mut i: usize = 0;
    assert(views.take(0) =~= Seq::<RemittanceView>::empty());
    while i < v.len()
        invariant
            i <= v@.len(),
            views == remittance_views(v@),
            out@ == old(out)@ + remittances_bytes(views.take(i as int)),
        decreases v@.len() - i,
    {
        push_remittance(out, &v[i]);
        assert(views.take(i + 1).drop_last() =~= views.take(i as int));
        assert(views.take(i + 1).last() == v@[i as int]@);
        i = i + 1;
        assert(out@ =~= old(out)@ + remittances_bytes(views.take(i as int)));
    }
    assert(views.take(v@.len() as int) =~= views);
}

/// Appends the encodings of `v`.
fn push_addresses(out: &mut Vec<u8>, v: &Vec<Address>)
    ensures
        final(out)@ == old(out)@ + addresses_bytes(address_views(v@)),
{
    let ghost views = address_views(v@);
    let mut i: usize = 0;
    assert(views.take(0) =~= Seq::<Seq<u8>>::empty());
    while i < v.len()
        invariant
            i <= v@.len(),
            views == address_views(v@),
            out@ == old(out)@ + addresses_bytes(views.take(i as int)),
        decreases v@.len() - i,
    {
        let mut bytes = address_to_bytes(&v[i]);
        out.append(&mut bytes);
        assert(views.take(i + 1).drop_last() =~= views.take(i as int));
        assert(views.take(i + 1).last() == v@[i as int]@);
        i = i + 1;
        assert(out@ =~= old(out)@ + addresses_bytes(views.take(i as int)));
    }
    assert(views.take(v@.len() as int) =~= views);
}

/// Appends the encodings of `v`.
fn push_ids(out: &mut Vec<u8>, v: &Vec<u64>)
    ensures
        final(out)@ == old(out)@ + ids_bytes(v@),
{
    let mut i: usize = 0;
    assert(v@.take(0) =~= Seq::<u64>::empty());
    while i < v.len()
        invariant
            i <= v@.len(),
            out@ == old(out)@ + ids_bytes(v@.take(i as int)),
        decreases v@.len() - i,
    {
        push_u64_be(out, v[i]);
        assert(v@.take(i + 1).drop_last() =~= v@.take(i as int));
        i = i + 1;
        assert(out@ =~= old(out)@ + ids_bytes(v@.take(i as int)));
    }
    assert(v@.take(v@.len() as int) =~= v@);
}

/// The digest of a snapshot with these contents.
pub fn compute_snapshot_hash(
    env: &soroban_sdk::Env,
    instance_data: &InstanceData,
    persistent_data: &PersistentData,
    timestamp: u64,
    ledger_sequence: u32,
) -> (h: [u8; 32])
    ensures
        h@ == sha256_digest(snapshot_preimage(instance_data@, persistent_data@, timestamp, ledger_sequence)),
{
    let mut data: Vec<u8> = Vec::new();
    let mut admin = address_to_bytes(&instance_data.admin);
    data.append(&mut admin);
    let mut token = address_to_bytes(&instance_data.usdc_token);
    data.append(&mut token);
    push_u32_be(&mut data, instance_data.platform_fee_bps);
    push_u64_be(&mut data, instance_data.remittance_counter);
    push_i128_be(&mut data, instance_data.accumulated_fees);
    data.push(if instance_data.paused { 1u8 } else { 0u8 });
    push_u32_be(&mut data, instance_data.admin_count);
    push_remittances(&mut data, &persistent_data.remittances);
    push_addresses(&mut data, &persistent_data.agents);
    push_addresses(&mut data, &persistent_data.admin_roles);
    push_ids(&mut data, &persistent_data.settlement_hashes);
    push_addresses(&mut data, &persistent_data.whitelisted_tokens);
    push_u64_be(&mut data, timestamp);
    push_u32_be(&mut data, ledger_sequence);
    assert(data@ =~= snapshot_preimage(instance_data@, persistent_data@, timestamp, ledger_sequence));
    sha256(env, &data)
}

/// The digest of a batch with these contents.
pub fn compute_batch_hash(env: &soroban_sdk::Env, remittances: &Vec<Remittance>, batch_number: u32) -> (h: [u8; 32])
    ensures
        h@ == sha256_digest(batch_preimage(remittance_views(remittances@), batch_number)),
{
    let mut data: Vec<u8> = Vec::new();
    push_u32_be(&mut data, batch_number);
    push_remittances(&mut data, remittances);
    assert(data@ =~= batch_preimage(remittance_views(remittances@), batch_number));
    sha256(env, &data)
}

/// Whether two digests are equal.
fn digests_equal(a: &[u8; 32], b: &[u8; 32]) -> (eq: bool)
    ensures
        eq == (a@ == b@),
{
    let mut i: usize = 0;
    while i < 32
        invariant
            i <= 32,
            a@.len() == 32,
            b@.len() == 32,
            forall|j: int| 0 <= j < i ==> a@[j] == b@[j],
        decreases 32 - i,
    {
        if a[i] != b[i] {
            return false;
        }
        i = i + 1;
    }
    assert(a@ =~= b@);
    true
}

/// The remittances with ids `start..=end` stored in `store`, in id order.
fn collect_remittances(store: &Storage, start: u64, end: u64) -> (v: Vec<Remittance>)
    requires
        1 <= start,
        start <= end + 1,
    ensures
        remittance_views(v@) == remittances_in_range(store@.remittances, start as int, end as int),
{
    let mut v: Vec<Remittance> = Vec::new();
    let mut next: u64 = start;
    assert(remittance_views(v@) =~= remittances_in_range(store@.remittances, start as int, start - 1));
    while next <= end
        invariant
            start <= next,
            next <= end + 1,
            remittance_views(v@) == remittances_in_range(store@.remittances, start as int, next - 1),
        decreases end + 1 - next,
    {
        let ghost before = v@;
        if let Ok(remittance) = get_remittance(store, next) {
            v.push(remittance);
            assert(remittance_views(v@) =~= remittance_views(before).push(store@.remittances[next]));
        }
        assert(remittance_views(v@) =~= remittances_in_range(store@.remittances, start as int, next as int));
        if next == end {
            return v;
        }
        next = next + 1;
    }
    v
}

/// The settled ids `1..=end` of `store`, in order.
fn collect_settled(store: &Storage, end: u64) -> (v: Vec<u64>)
    ensures
        v@ == settled_in_range(store@.settlement_hashes, 1, end as int),
{
    let mut v: Vec<u64> = Vec::new();
    let mut id: u64 = 0;
    assert(v@ =~= settled_in_range(store@.settlement_hashes, 1, 0));
    while id < end
        invariant
            id <= end,
            v@ == settled_in_range(store@.settlement_hashes, 1, id as int),
        decreases end - id,
    {
        id = id + 1;
        if has_settlement_hash(store, id) {
            v.push(id);
        }
        assert(v@ =~= settled_in_range(store@.settlement_hashes, 1, id as int));
    }
    v
}

/// Exports the contract's state at ledger time `now` and sequence
/// `ledger_sequence`: the configuration, the remittances with ids
/// `1..=counter`, the settled ids among them, and the digest of it all.
/// Agents, admins and whitelisted tokens cannot be enumerated in storage
/// and are exported empty.
pub fn export_state(env: &soroban_sdk::Env, store: &Storage, now: u64, ledger_sequence: u32) -> (r: Result<MigrationSnapshot, ContractError>)
    ensures
        !exportable(store@) ==> r == Err::<MigrationSnapshot, ContractError>(ContractError::NotInitialized),
        exportable(store@) ==> (r matches Ok(snap) && {
            &&& snap.version == 1
            &&& snap.timestamp == now
            &&& snap.ledger_sequence == ledger_sequence
            &&& snap.instance_data@ == exported_instance(store@)
            &&& snap.persistent_data@ == exported_persistent(store@)
            &&& snapshot_consistent(snap)
        }),
{
    let instance_data = InstanceData {
        admin: get_admin(store)?,
        usdc_token: get_usdc_token(store)?,
        platform_fee_bps: get_platform_fee_bps(store)?,
        remittance_counter: get_remittance_counter(store)?,
        accumulated_fees: get_accumulated_fees(store)?,
        paused: is_paused(store),
        admin_count: get_admin_count(store),
    };
    let counter = instance_data.remittance_counter;
    let remittances = collect_remittances(store, 1, counter);
    let settlement_hashes = collect_settled(store, counter);
    let persistent_data = PersistentData {
        remittances,
        agents: Vec::new(),
        admin_roles: Vec::new(),
        settlement_hashes,
        whitelisted_tokens: Vec::new(),
    };
    assert(persistent_data@.agents =~= Seq::<Seq<u8>>::empty());
    assert(persistent_data@.admin_roles =~= Seq::<Seq<u8>>::empty());
    assert(persistent_data@.whitelisted_tokens =~= Seq::<Seq<u8>>::empty());
    let verification_hash = compute_snapshot_hash(env, &instance_data, &persistent_data, now, ledger_sequence);
    Ok(MigrationSnapshot {
        version: SNAPSHOT_VERSION,
        timestamp: now,
        ledger_sequence,
        instance_data,
        persistent_data,
        verification_hash,
    })
}

/// Imports `snapshot` into a contract that has no admin yet, after checking
/// its digest: stores the configuration, every remittance under its id,
/// and marks the agents, admins, settled ids and tokens it lists.
pub fn import_state(env: &soroban_sdk::Env, store: &mut Storage, snapshot: MigrationSnapshot) -> (r: Result<(), ContractError>)
    ensures
        old(store)@.admin is Some ==> r == Err::<(), ContractError>(ContractError::AlreadyInitialized)
            && final(store)@ == old(store)@,
        old(store)@.admin is None && !snapshot_consistent(snapshot) ==> r == Err::<(), ContractError>(
            ContractError::InvalidMigrationHash,
        ) && final(store)@ == old(store)@,
        old(store)@.admin is None && snapshot_consistent(snapshot) ==> r is Ok && final(store)@ == imported_model(
            old(store)@,
            snapshot.instance_data@,
            snapshot.persistent_data@,
        ),
{
    if has_admin(store) {
        return Err(ContractError::AlreadyInitialized);
    }
    let computed_hash = compute_snapshot_hash(
        env,
        &snapshot.instance_data,
        &snapshot.persistent_data,
        snapshot.timestamp,
        snapshot.ledger_sequence,
    );
    if !digests_equal(&computed_hash, &snapshot.verification_hash) {
        return Err(ContractError::InvalidMigrationHash);
    }
    let instance = &snapshot.instance_data;
    set_admin(store, &instance.admin);
    set_usdc_token(store, &instance.usdc_token);
    set_platform_fee_bps(store, instance.platform_fee_bps);
    set_remittance_counter(store, instance.remittance_counter);
    set_accumulated_fees(store, instance.accumulated_fees);
    set_paused(store, instance.paused);
    set_admin_count(store, instance.admin_count);

    let persistent = &snapshot.persistent_data;
    let ghost p = persistent@;

    let ghost m0 = store@;
    let mut i: usize = 0;
    assert(p.remittances.take(0) =~= Seq::<RemittanceView>::empty());
    while i < persistent.remittances.len()
        invariant
            i <= persistent.remittances@.len(),
            p == persistent@,
            store@ == (StorageModel { remittances: stored_remittances(m0.remittances, p.remittances.take(i as int)), ..m0 }),
        decreases persistent.remittances@.len() - i,
    {
        let remittance = &persistent.remittances[i];
        set_remittance(store, remittance.id, remittance);
        assert(p.remittances.take(i + 1).drop_last() =~= p.remittances.take(i as int));
        i = i + 1;
    }
    assert(p.remittances.take(i as int) =~= p.remittances);

    let ghost m1 = store@;
    let mut i: usize = 0;
    assert(p.agents.take(0) =~= Seq::<Seq<u8>>::empty());
    while i < persistent.agents.len()
        invariant
            i <= persistent.agents@.len(),
            p == persistent@,
            store@ == (StorageModel { agents: flags_set(m1.agents, p.agents.take(i as int)), ..m1 }),
        decreases persistent.agents@.len() - i,
    {
        set_agent_registered(store, &persistent.agents[i], true);
        assert(p.agents.take(i + 1).drop_last() =~= p.agents.take(i as int));
        i = i + 1;
    }
    assert(p.agents.take(i as int) =~= p.agents);

    let ghost m2 = store@;
    let mut i: usize = 0;
    assert(p.admin_roles.take(0) =~= Seq::<Seq<u8>>::empty());
    while i < persistent.admin_roles.len()
        invariant
            i <= persistent.admin_roles@.len(),
            p == persistent@,
            store@ == (StorageModel { admin_roles: flags_set(m2.admin_roles, p.admin_roles.take(i as int)), ..m2 }),
        decreases persistent.admin_roles@.len() - i,
    {
        set_admin_role(store, &persistent.admin_roles[i], true);
        assert(p.admin_roles.take(i + 1).drop_last() =~= p.admin_roles.take(i as int));
        i = i + 1;
    }
    assert(p.admin_roles.take(i as int) =~= p.admin_roles);

    let ghost m3 = store@;
    let mut i: usize = 0;
    assert(p.settlement_hashes.take(0) =~= Seq::<u64>::empty());
    while i < persistent.settlement_hashes.len()
        invariant
            i <= persistent.settlement_hashes@.len(),
            p == persistent@,
            store@ == (StorageModel {
                settlement_hashes: ids_added(m3.settlement_hashes, p.settlement_hashes.take(i as int)),
                ..m3
            }),
        decreases persistent.settlement_hashes@.len() - i,
    {
        set_settlement_hash(store, persistent.settlement_hashes[i]);
        assert(p.settlement_hashes.take(i + 1).drop_last() =~= p.settlement_hashes.take(i as int));
        i = i + 1;
    }
    assert(p.settlement_hashes.take(i as int) =~= p.settlement_hashes);

    let ghost m4 = store@;
    let mut i: usize = 0;
    assert(p.whitelisted_tokens.take(0) =~= Seq::<Seq<u8>>::empty());
    while i < persistent.whitelisted_tokens.len()
        invariant
            i <= persistent.whitelisted_tokens@.len(),
            p == persistent@,
            store@ == (StorageModel {
                whitelisted_tokens: flags_set(m4.whitelisted_tokens, p.whitelisted_tokens.take(i as int)),
                ..m4
            }),
        decreases persistent.whitelisted_tokens@.len() - i,
    {
        set_token_whitelisted(store, &persistent.whitelisted_tokens[i], true);
        assert(p.whitelisted_tokens.take(i + 1).drop_last() =~= p.whitelisted_tokens.take(i as int));
        i = i + 1;
    }
    assert(p.whitelisted_tokens.take(i as int) =~= p.whitelisted_tokens);
    Ok(())
}

/// Checks `snapshot` against its digest at ledger time `now`, without importing it.
pub fn verify_snapshot(env: &soroban_sdk::Env, snapshot: &MigrationSnapshot, now: u64) -> (v: MigrationVerification)
    ensures
        v.valid == snapshot_consistent(*snapshot),
        v.expected_hash@ == snapshot.verification_hash@,
        v.actual_hash@ == sha256_digest(
            snapshot_preimage(snapshot.instance_data@, snapshot.persistent_data@, snapshot.timestamp, snapshot.ledger_sequence),
        ),
        v.timestamp == now,
{
    let computed_hash = compute_snapshot_hash(
        env,
        &snapshot.instance_data,
        &snapshot.persistent_data,
        snapshot.timestamp,
        snapshot.ledger_sequence,
    );
    let valid = digests_equal(&computed_hash, &snapshot.verification_hash);
    MigrationVerification {
        valid,
        expected_hash: snapshot.verification_hash,
        actual_hash: computed_hash,
        timestamp: now,
    }
}

/// The number of batches of `batch_size` for `counter` remittances, as the
/// contract computes it on the low 32 bits of the counter.
pub open spec fn batch_count(counter: u64, batch_size: u32) -> int {
    ((counter as u32) as int + batch_size as int - 1) / batch_size as int
}

/// The remittances of batch `n` of `batch_size` among `counter`: those with
/// keys from `n * batch_size + 1` up to `(n + 1) * batch_size`, capped at
/// `counter`, in key order.
pub open spec fn batch_remittances(m: Map<u64, RemittanceView>, counter: int, batch_size: int, n: int) -> Seq<
    RemittanceView,
> {
    let end = if (n + 1) * batch_size <= counter {
        (n + 1) * batch_size
    } else {
        counter
    };
    remittances_in_range(m, n * batch_size + 1, end)
}

/// Exports batch `batch_number` of `batch_size` remittances: ids from
/// `batch_number * batch_size + 1` up to `(batch_number + 1) * batch_size`,
/// capped at the counter, with the digest of the batch.
pub fn export_batch(env: &soroban_sdk::Env, store: &Storage, batch_number: u32, batch_size: u32) -> (r: Result<MigrationBatch, ContractError>)
    requires
        store@.remittance_counter is Some && 1 <= batch_size <= 100 ==> (store@.remittance_counter.unwrap() as u32) as int
            + batch_size <= u32::MAX,
    ensures
        (batch_size == 0 || batch_size > 100) ==> r == Err::<MigrationBatch, ContractError>(
            ContractError::InvalidBatchSize,
        ),
        1 <= batch_size <= 100 && store@.remittance_counter is None ==> r == Err::<MigrationBatch, ContractError>(
            ContractError::NotInitialized,
        ),
        1 <= batch_size <= 100 && store@.remittance_counter is Some ==> {
            let counter = store@.remittance_counter.unwrap();
            let total = batch_count(counter, batch_size);
            if batch_number >= total {
                r == Err::<MigrationBatch, ContractError>(ContractError::InvalidMigrationBatch)
            } else {
                (r matches Ok(b) && {
                    &&& b.batch_number == batch_number
                    &&& b.total_batches == total
                    &&& remittance_views(b.remittances@) == batch_remittances(
                        store@.remittances,
                        (counter as u32) as int,
                        batch_size as int,
                        batch_number as int,
                    )
                    &&& batch_consistent(b)
                })
            }
        },
{
    if batch_size == 0 || batch_size > MAX_MIGRATION_BATCH_SIZE {
        return Err(ContractError::InvalidBatchSize);
    }
    let counter = get_remittance_counter(store)?;
    let counter32 = counter as u32;
    let total_batches = (counter32 + batch_size - 1) / batch_size;
    if batch_number >= total_batches {
        return Err(ContractError::InvalidMigrationBatch);
    }
    proof {
        assert(total_batches as int * batch_size as int <= counter32 as int + batch_size - 1) by (nonlinear_arith)
            requires
                total_batches as int == (counter32 as int + batch_size as int - 1) / batch_size as int,
                batch_size >= 1,
        ;
        assert((batch_number as int + 1) * batch_size as int <= total_batches as int * batch_size as int) by (nonlinear_arith)
            requires
                batch_number < total_batches,
                batch_size >= 1,
        ;
        assert(batch_number as int * batch_size as int + batch_size as int == (batch_number as int + 1) * batch_size as int)
            by (nonlinear_arith);
    }
    let start_id = (batch_number * batch_size) as u64 + 1;
    let upper = (batch_number + 1) * batch_size;
    let end_id = (if upper <= counter32 { upper } else { counter32 }) as u64;
    let remittances = collect_remittances(store, start_id, end_id);
    let batch_hash = compute_batch_hash(env, &remittances, batch_number);
    Ok(MigrationBatch { batch_number, total_batches, remittances, batch_hash })
}

/// Imports `batch` after checking its digest and that it is the next batch
/// in order (batch 0 first), storing each remittance under its id and
/// counting the batch as imported.
pub fn import_batch(env: &soroban_sdk::Env, store: &mut Storage, batch: MigrationBatch) -> (r: Result<(), ContractError>)
    ensures
        !batch_consistent(batch) ==> r == Err::<(), ContractError>(ContractError::InvalidMigrationHash)
            && final(store)@ == old(store)@,
        batch_consistent(batch) && batch.batch_number != old(store)@.batches_imported ==> r == Err::<(), ContractError>(
            ContractError::InvalidMigrationBatch,
        ) && final(store)@ == old(store)@,
        batch_consistent(batch) && batch.batch_number == old(store)@.batches_imported ==> r is Ok && final(store)@ == (
        StorageModel {
            remittances: stored_remittances(old(store)@.remittances, remittance_views(batch.remittances@)),
            batches_imported: (old(store)@.batches_imported + 1) as u64,
            ..old(store)@
        }),
{
    let computed_hash = compute_batch_hash(env, &batch.remittances, batch.batch_number);
    if !digests_equal(&computed_hash, &batch.batch_hash) {
        return Err(ContractError::InvalidMigrationHash);
    }
    let imported = get_batches_imported(store);
    if batch.batch_number as u64 != imported {
        return Err(ContractError::InvalidMigrationBatch);
    }
    let ghost rems = remittance_views(batch.remittances@);
    let mut i: usize = 0;
    assert(rems.take(0) =~= Seq::<RemittanceView>::empty());
    while i < batch.remittances.len()
        invariant
            i <= batch.remittances@.len(),
            rems == remittance_views(batch.remittances@),
            store@ == (StorageModel {
                remittances: stored_remittances(old(store)@.remittances, rems.take(i as int)),
                ..old(store)@
            }),
        decreases batch.remittances@.len() - i,
    {
        let remittance = &batch.remittances[i];
        set_remittance(store, remittance.id, remittance);
        assert(rems.take(i + 1).drop_last() =~= rems.take(i as int));
        i = i + 1;
    }
    assert(rems.take(i as int) =~= rems);
    set_batches_imported(store, imported + 1);
    Ok(())
}

/// Storing the remittances of `m` with keys `start..=end` over `e` puts
/// each of them under its own id and leaves every key that is no such id as
/// `e` has it, provided no two of them carry the same id.
proof fn lemma_store_range(e: Map<u64, RemittanceView>, m: Map<u64, RemittanceView>, start: int, end: int)
    requires
        ids_distinct_in_range(m, start, end),
        0 <= start,
        end <= u64::MAX,
    ensures
        forall|k: u64|
            start <= k <= end && #[trigger] m.contains_key(k) ==> {
                &&& stored_remittances(e, remittances_in_range(m, start, end)).contains_key(m[k].id)
                &&& stored_remittances(e, remittances_in_range(m, start, end))[m[k].id] == m[k]
            },
        forall|i: u64|
            !exported_id(m, start, end, i) ==> {
                &&& #[trigger] stored_remittances(e, remittances_in_range(m, start, end)).contains_key(i)
                    == e.contains_key(i)
                &&& e.contains_key(i) ==> stored_remittances(e, remittances_in_range(m, start, end))[i] == e[i]
            },
    decreases end + 1 - start,
{
    let s = remittances_in_range(m, start, end);
    if end < start {
        assert(stored_remittances(e, s) == e);
    } else {
        lemma_store_range(e, m, start, end - 1);
        let prev = remittances_in_range(m, start, end - 1);
        let before = stored_remittances(e, prev);
        if m.contains_key(end as u64) {
            let last = m[end as u64];
            assert(s.drop_last() =~= prev);
            assert(stored_remittances(e, s) == before.insert(last.id, last));
            assert forall|k: u64| start <= k <= end && #[trigger] m.contains_key(k) implies {
                &&& stored_remittances(e, s).contains_key(m[k].id)
                &&& stored_remittances(e, s)[m[k].id] == m[k]
            } by {
                if k != end as u64 {
                    assert(m[k].id != last.id);
                }
            }
            assert forall|i: u64| !exported_id(m, start, end, i) implies {
                &&& #[trigger] stored_remittances(e, s).contains_key(i) == e.contains_key(i)
                &&& e.contains_key(i) ==> stored_remittances(e, s)[i] == e[i]
            } by {
                assert(i != last.id);
                if exported_id(m, start, end - 1, i) {
                    let k = choose|k: u64| start <= k <= end - 1 && m.contains_key(k) && m[k].id == i;
                    assert(start <= k <= end && m.contains_key(k) && m[k].id == i);
                }
            }
        } else {
            assert(s =~= prev);
            assert forall|i: u64| !exported_id(m, start, end, i) implies !exported_id(m, start, end - 1, i) by {
                if exported_id(m, start, end - 1, i) {
                    let k = choose|k: u64| start <= k <= end - 1 && m.contains_key(k) && m[k].id == i;
                    assert(start <= k <= end && m.contains_key(k) && m[k].id == i);
                }
            }
        }
    }
}

/// Adding the ids of `settled` from `start` to `end` to `e` adds exactly those.
proof fn lemma_add_settled_range(e: Set<u64>, settled: Set<u64>, start: int, end: int)
    requires
        0 <= start,
        end <= u64::MAX,
    ensures
        forall|k: u64|
            #[trigger] ids_added(e, settled_in_range(settled, start, end)).contains(k) <==> (e.contains(k) || (start
                <= k <= end && settled.contains(k))),
    decreases end + 1 - start,
{
    let s = settled_in_range(settled, start, end);
    if end < start {
        assert(ids_added(e, s) == e);
    } else {
        lemma_add_settled_range(e, settled, start, end - 1);
        let prev = settled_in_range(settled, start, end - 1);
        if settled.contains(end as u64) {
            assert(s.drop_last() =~= prev);
            assert(ids_added(e, s) == ids_added(e, prev).insert(end as u64));
        } else {
            assert(s =~= prev);
        }
    }
}

/// Importing the snapshot that `export_state` takes of `m`, into a storage
/// `e` without an admin, restores `m`'s configuration and which ids up to
/// the counter were settled; every remittance with a key up to the counter
/// is stored under its own id, and no other remittance changes. This needs
/// the exported remittances to carry distinct ids (as they do when each is
/// stored under its own id); it adds no agent, admin or token.
pub proof fn lemma_export_import_round_trip(m: StorageModel, e: StorageModel)
    requires
        exportable(m),
        ids_distinct_in_range(m.remittances, 1, m.remittance_counter.unwrap() as int),
    ensures
        ({
            let r = imported_model(e, exported_instance(m), exported_persistent(m));
            let counter = m.remittance_counter.unwrap();
            &&& r.admin == m.admin
            &&& r.usdc_token == m.usdc_token
            &&& r.platform_fee_bps == m.platform_fee_bps
            &&& r.remittance_counter == m.remittance_counter
            &&& r.accumulated_fees == m.accumulated_fees
            &&& r.paused == m.paused
            &&& r.admin_count == m.admin_count
            &&& forall|k: u64|
                1 <= k <= counter && #[trigger] m.remittances.contains_key(k) ==> r.remittances.contains_key(
                    m.remittances[k].id,
                ) && r.remittances[m.remittances[k].id] == m.remittances[k]
            &&& forall|i: u64|
                !exported_id(m.remittances, 1, counter as int, i) ==> (#[trigger] r.remittances.contains_key(i)
                    == e.remittances.contains_key(i)) && (e.remittances.contains_key(i) ==> r.remittances[i]
                    == e.remittances[i])
            &&& forall|k: u64|
                1 <= k <= counter ==> (#[trigger] r.settlement_hashes.contains(k) <==> (m.settlement_hashes.contains(k)
                    || e.settlement_hashes.contains(k)))
            &&& r.agents == e.agents
            &&& r.admin_roles == e.admin_roles
            &&& r.whitelisted_tokens == e.whitelisted_tokens
        }),
{
    let counter = m.remittance_counter.unwrap();
    lemma_store_range(e.remittances, m.remittances, 1, counter as int);
    lemma_add_settled_range(e.settlement_hashes, m.settlement_hashes, 1, counter as int);
}

/// Batches `0..n` of `batch_size` among `counter`, joined in order.
pub open spec fn batches_joined(m: Map<u64, RemittanceView>, counter: int, batch_size: int, n: nat) -> Seq<
    RemittanceView,
>
    decreases n,
{
    if n == 0 {
        Seq::empty()
    } else {
        batches_joined(m, counter, batch_size, (n - 1) as nat) + batch_remittances(m, counter, batch_size, n - 1)
    }
}

/// The remittances of `r` after importing batches `0..n` of `m`, in order.
pub open spec fn batches_stored(
    r: Map<u64, RemittanceView>,
    m: Map<u64, RemittanceView>,
    counter: int,
    batch_size: int,
    n: nat,
) -> Map<u64, RemittanceView>
    decreases n,
{
    if n == 0 {
        r
    } else {
        stored_remittances(
            batches_stored(r, m, counter, batch_size, (n - 1) as nat),
            batch_remittances(m, counter, batch_size, n - 1),
        )
    }
}

/// Consecutive key ranges join into one.
proof fn lemma_ranges_join(m: Map<u64, RemittanceView>, a: int, b: int, d: int)
    requires
        a <= b + 1,
        b <= d,
    ensures
        remittances_in_range(m, a, b) + remittances_in_range(m, b + 1, d) == remittances_in_range(m, a, d),
    decreases d - b,
{
    if d == b {
        assert(remittances_in_range(m, a, b) + remittances_in_range(m, b + 1, d) =~= remittances_in_range(m, a, b));
    } else {
        lemma_ranges_join(m, a, b, d - 1);
        let last = if m.contains_key(d as u64) {
            seq![m[d as u64]]
        } else {
            Seq::empty()
        };
        assert(remittances_in_range(m, b + 1, d) == remittances_in_range(m, b + 1, d - 1) + last);
        assert(remittances_in_range(m, a, d) == remittances_in_range(m, a, d - 1) + last);
        assert(remittances_in_range(m, a, b) + (remittances_in_range(m, b + 1, d - 1) + last) =~= (
        remittances_in_range(m, a, b) + remittances_in_range(m, b + 1, d - 1)) + last);
    }
}

/// Storing two sequences one after the other stores their concatenation.
proof fn lemma_stored_concat(r: Map<u64, RemittanceView>, s1: Seq<RemittanceView>, s2: Seq<RemittanceView>)
    ensures
        stored_remittances(stored_remittances(r, s1), s2) == stored_remittances(r, s1 + s2),
    decreases s2.len(),
{
    if s2.len() == 0 {
        assert(s1 + s2 =~= s1);
    } else {
        lemma_stored_concat(r, s1, s2.drop_last());
        assert((s1 + s2).drop_last() =~= s1 + s2.drop_last());
        assert((s1 + s2).last() == s2.last());
    }
}

/// The first `n` batches cover the keys `1..=min(n * batch_size, counter)`.
proof fn lemma_batches_prefix(m: Map<u64, RemittanceView>, counter: int, batch_size: int, n: nat)
    requires
        1 <= batch_size,
        0 <= counter,
        n <= (counter + batch_size - 1) / batch_size,
    ensures
        batches_joined(m, counter, batch_size, n) == remittances_in_range(
            m,
            1,
            if n * batch_size <= counter { n * batch_size } else { counter },
        ),
    decreases n,
{
    if n == 0 {
        assert(batches_joined(m, counter, batch_size, n) =~= remittances_in_range(m, 1, 0));
    } else {
        let p = (n - 1) as nat;
        lemma_batches_prefix(m, counter, batch_size, p);
        let total = (counter + batch_size - 1) / batch_size;
        assert(p * batch_size < counter) by (nonlinear_arith)
            requires
                p < total,
                total == (counter + batch_size - 1) / batch_size,
                1 <= batch_size,
                0 <= counter,
        ;
        assert(n * batch_size == p * batch_size + batch_size) by (nonlinear_arith)
            requires
                n == p + 1,
        ;
        let end = if n * batch_size <= counter { n * batch_size } else { counter };
        lemma_ranges_join(m, 1, p * batch_size, end);
    }
}

/// The batches of an export, joined in order, are exactly the remittances
/// the full export holds: no remittance is left out or exported twice.
pub proof fn lemma_batches_partition_export(m: StorageModel, batch_size: u32)
    requires
        exportable(m),
        m.remittance_counter.unwrap() <= u32::MAX,
        1 <= batch_size <= 100,
    ensures
        batches_joined(
            m.remittances,
            m.remittance_counter.unwrap() as int,
            batch_size as int,
            batch_count(m.remittance_counter.unwrap(), batch_size) as nat,
        ) == exported_persistent(m).remittances,
{
    let c = m.remittance_counter.unwrap() as int;
    let k = batch_size as int;
    let total = (c + k - 1) / k;
    assert((m.remittance_counter.unwrap() as u32) as int == c);
    assert(total >= 0) by (nonlinear_arith)
        requires
            total == (c + k - 1) / k,
            1 <= k,
            0 <= c,
    ;
    assert(total * k >= c) by (nonlinear_arith)
        requires
            total == (c + k - 1) / k,
            1 <= k,
            0 <= c,
    ;
    lemma_batches_prefix(m.remittances, c, k, total as nat);
}

/// Importing the batches of `m` one after the other, in order, stores the
/// same remittances as importing the whole export at once.
pub proof fn lemma_batch_import_round_trip(m: StorageModel, e: Map<u64, RemittanceView>, batch_size: u32)
    requires
        exportable(m),
        m.remittance_counter.unwrap() <= u32::MAX,
        1 <= batch_size <= 100,
    ensures
        batches_stored(
            e,
            m.remittances,
            m.remittance_counter.unwrap() as int,
            batch_size as int,
            batch_count(m.remittance_counter.unwrap(), batch_size) as nat,
        ) == stored_remittances(e, exported_persistent(m).remittances),
{
    let c = m.remittance_counter.unwrap() as int;
    let k = batch_size as int;
    let total = batch_count(m.remittance_counter.unwrap(), batch_size) as nat;
    lemma_batches_partition_export(m, batch_size);
    lemma_batches_stored_joined(e, m.remittances, c, k, total);
}

/// Importing batches `0..n` stores their concatenation.
proof fn lemma_batches_stored_joined(
    e: Map<u64, RemittanceView>,
    m: Map<u64, RemittanceView>,
    counter: int,
    batch_size: int,
    n: nat,
)
    ensures
        batches_stored(e, m, counter, batch_size, n) == stored_remittances(e, batches_joined(m, counter, batch_size, n)),
    decreases n,
{
    if n == 0 {
        assert(batches_joined(m, counter, batch_size, n) =~= Seq::<RemittanceView>::empty());
    } else {
        lemma_batches_stored_joined(e, m, counter, batch_size, (n - 1) as nat);
        lemma_stored_concat(
            e,
            batches_joined(m, counter, batch_size, (n - 1) as nat),
            batch_remittances(m, counter, batch_size, n - 1),
        );
    }
}

/// Distinct statuses are encoded by distinct bytes.
proof fn lemma_status_byte_injective(a: RemittanceStatus, b: RemittanceStatus)
    ensures
        status_byte(a) == status_byte(b) ==> a == b,
{
}

/// The length of a remittance's encoding.
proof fn lemma_remittance_bytes_len(r: RemittanceView)
    ensures
        remittance_bytes(r).len() == 41 + r.sender.len() + r.agent.len() + if r.expiry is Some { 8int } else { 0int },
{
}

/// A remittance's encoding determines the remittance, among remittances
/// whose sender and agent encodings have the same lengths: changing any
/// field (id, sender, agent, amount, fee, status or expiry) changes the bytes.
pub proof fn lemma_remittance_bytes_injective(r1: RemittanceView, r2: RemittanceView)
    requires
        r1.sender.len() == r2.sender.len(),
        r1.agent.len() == r2.agent.len(),
    ensures
        remittance_bytes(r1) == remittance_bytes(r2) ==> r1 == r2,
{
    if remittance_bytes(r1) == remittance_bytes(r2) {
        lemma_remittance_bytes_len(r1);
        lemma_remittance_bytes_len(r2);
        let e1 = match r1.expiry {
            Some(e) => u64_be(e),
            None => Seq::<u8>::empty(),
        };
        let e2 = match r2.expiry {
            Some(e) => u64_be(e),
            None => Seq::<u8>::empty(),
        };
        let p5_1 = u64_be(r1.id) + r1.sender + r1.agent + i128_be(r1.amount) + i128_be(r1.fee) + seq![status_byte(r1.status)];
        let p5_2 = u64_be(r2.id) + r2.sender + r2.agent + i128_be(r2.amount) + i128_be(r2.fee) + seq![status_byte(r2.status)];
        assert(r1.expiry is Some == r2.expiry is Some);
        lemma_concat_split(p5_1, e1, p5_2, e2);
        if r1.expiry is Some {
            lemma_u64_be_injective(r1.expiry.unwrap(), r2.expiry.unwrap());
        }
        let p4_1 = u64_be(r1.id) + r1.sender + r1.agent + i128_be(r1.amount) + i128_be(r1.fee);
        let p4_2 = u64_be(r2.id) + r2.sender + r2.agent + i128_be(r2.amount) + i128_be(r2.fee);
        lemma_concat_split(p4_1, seq![status_byte(r1.status)], p4_2, seq![status_byte(r2.status)]);
        assert(seq![status_byte(r1.status)][0] == seq![status_byte(r2.status)][0]);
        lemma_status_byte_injective(r1.status, r2.status);
        let p3_1 = u64_be(r1.id) + r1.sender + r1.agent + i128_be(r1.amount);
        let p3_2 = u64_be(r2.id) + r2.sender + r2.agent + i128_be(r2.amount);
        lemma_concat_split(p3_1, i128_be(r1.fee), p3_2, i128_be(r2.fee));
        lemma_i128_be_injective(r1.fee, r2.fee);
        let p2_1 = u64_be(r1.id) + r1.sender + r1.agent;
        let p2_2 = u64_be(r2.id) + r2.sender + r2.agent;
        lemma_concat_split(p2_1, i128_be(r1.amount), p2_2, i128_be(r2.amount));
        lemma_i128_be_injective(r1.amount, r2.amount);
        lemma_concat_split(u64_be(r1.id) + r1.sender, r1.agent, u64_be(r2.id) + r2.sender, r2.agent);
        lemma_concat_split(u64_be(r1.id), r1.sender, u64_be(r2.id), r2.sender);
        lemma_u64_be_injective(r1.id, r2.id);
    }
}

/// Whether `s1` and `s2` have the same length and, position by position,
/// senders and agents of equal encoding lengths and expiries present alike.
pub open spec fn same_shape(s1: Seq<RemittanceView>, s2: Seq<RemittanceView>) -> bool {
    &&& s1.len() == s2.len()
    &&& forall|i: int|
        0 <= i < s1.len() ==> {
            &&& (#[trigger] s1[i]).sender.len() == s2[i].sender.len()
            &&& s1[i].agent.len() == s2[i].agent.len()
            &&& s1[i].expiry is Some == s2[i].expiry is Some
        }
}

/// The encoding of a sequence of remittances determines it, among sequences
/// of the same shape.
pub proof fn lemma_remittances_bytes_injective(s1: Seq<RemittanceView>, s2: Seq<RemittanceView>)
    requires
        same_shape(s1, s2),
    ensures
        remittances_bytes(s1) == remittances_bytes(s2) ==> s1 == s2,
    decreases s1.len(),
{
    if s1.len() > 0 && remittances_bytes(s1) == remittances_bytes(s2) {
        let n = s1.len() - 1;
        assert(s1.last() == s1[n] && s2.last() == s2[n]);
        lemma_remittance_bytes_len(s1.last());
        lemma_remittance_bytes_len(s2.last());
        lemma_concat_split(
            remittances_bytes(s1.drop_last()),
            remittance_bytes(s1.last()),
            remittances_bytes(s2.drop_last()),
            remittance_bytes(s2.last()),
        );
        lemma_remittance_bytes_injective(s1.last(), s2.last());
        assert(same_shape(s1.drop_last(), s2.drop_last())) by {
            assert forall|i: int| 0 <= i < s1.drop_last().len() implies {
                &&& (#[trigger] s1.drop_last()[i]).sender.len() == s2.drop_last()[i].sender.len()
                &&& s1.drop_last()[i].agent.len() == s2.drop_last()[i].agent.len()
                &&& s1.drop_last()[i].expiry is Some == s2.drop_last()[i].expiry is Some
            } by {
                assert(s1[i] == s1.drop_last()[i]);
                assert(s2[i] == s2.drop_last()[i]);
            }
        }
        lemma_remittances_bytes_injective(s1.drop_last(), s2.drop_last());
        assert(s1 =~= s1.drop_last().push(s1.last()));
        assert(s2 =~= s2.drop_last().push(s2.last()));
    }
}

/// A batch's digest input determines the batch: two batches of the same
/// shape hash the same bytes only when their numbers and remittances are
/// equal, so changing any field of any remittance changes what is hashed.
pub proof fn lemma_batch_preimage_determines_batch(s1: Seq<RemittanceView>, s2: Seq<RemittanceView>, n1: u32, n2: u32)
    requires
        same_shape(s1, s2),
    ensures
        batch_preimage(s1, n1) == batch_preimage(s2, n2) ==> n1 == n2 && s1 == s2,
{
    if batch_preimage(s1, n1) == batch_preimage(s2, n2) {
        lemma_concat_split(u32_be(n1), remittances_bytes(s1), u32_be(n2), remittances_bytes(s2));
        lemma_u32_be_injective(n1, n2);
        lemma_remittances_bytes_injective(s1, s2);
    }
}

/// A snapshot's digest input determines its configuration and its time:
/// for the same per-entity data, two configurations whose admin and token
/// encodings have the same lengths hash the same bytes only when every
/// field (admin, token, fee, counter, collected fees, pause flag, admin
/// count) and the export's time and ledger sequence are equal, so changing
/// any of them changes what is hashed.
pub proof fn lemma_snapshot_preimage_determines_configuration(
    i1: InstanceDataView,
    i2: InstanceDataView,
    p: PersistentDataView,
    t1: u64,
    t2: u64,
    l1: u32,
    l2: u32,
)
    requires
        i1.admin.len() == i2.admin.len(),
        i1.usdc_token.len() == i2.usdc_token.len(),
    ensures
        snapshot_preimage(i1, p, t1, l1) == snapshot_preimage(i2, p, t2, l2) ==> i1 == i2 && t1 == t2 && l1 == l2,
{
    if snapshot_preimage(i1, p, t1, l1) == snapshot_preimage(i2, p, t2, l2) {
        lemma_concat_split(
            i1.admin + i1.usdc_token + u32_be(i1.platform_fee_bps) + u64_be(i1.remittance_counter) + i128_be(i1.accumulated_fees) + seq![if i1.paused { 1u8 } else { 0u8 }] + u32_be(i1.admin_count) + remittances_bytes(p.remittances) + addresses_bytes(p.agents) + addresses_bytes(p.admin_roles) + ids_bytes(p.settlement_hashes) + addresses_bytes(p.whitelisted_tokens) + u64_be(t1),
            u32_be(l1),
            i2.admin + i2.usdc_token + u32_be(i2.platform_fee_bps) + u64_be(i2.remittance_counter) + i128_be(i2.accumulated_fees) + seq![if i2.paused { 1u8 } else { 0u8 }] + u32_be(i2.admin_count) + remittances_bytes(p.remittances) + addresses_bytes(p.agents) + addresses_bytes(p.admin_roles) + ids_bytes(p.settlement_hashes) + addresses_bytes(p.whitelisted_tokens) + u64_be(t2),
            u32_be(l2),
        );
        lemma_concat_split(
            i1.admin + i1.usdc_token + u32_be(i1.platform_fee_bps) + u64_be(i1.remittance_counter) + i128_be(i1.accumulated_fees) + seq![if i1.paused { 1u8 } else { 0u8 }] + u32_be(i1.admin_count) + remittances_bytes(p.remittances) + addresses_bytes(p.agents) + addresses_bytes(p.admin_roles) + ids_bytes(p.settlement_hashes) + addresses_bytes(p.whitelisted_tokens),
            u64_be(t1),
            i2.admin + i2.usdc_token + u32_be(i2.platform_fee_bps) + u64_be(i2.remittance_counter) + i128_be(i2.accumulated_fees) + seq![if i2.paused { 1u8 } else { 0u8 }] + u32_be(i2.admin_count) + remittances_bytes(p.remittances) + addresses_bytes(p.agents) + addresses_bytes(p.admin_roles) + ids_bytes(p.settlement_hashes) + addresses_bytes(p.whitelisted_tokens),
            u64_be(t2),
        );
        lemma_concat_split(
            i1.admin + i1.usdc_token + u32_be(i1.platform_fee_bps) + u64_be(i1.remittance_counter) + i128_be(i1.accumulated_fees) + seq![if i1.paused { 1u8 } else { 0u8 }] + u32_be(i1.admin_count) + remittances_bytes(p.remittances) + addresses_bytes(p.agents) + addresses_bytes(p.admin_roles) + ids_bytes(p.settlement_hashes),
            addresses_bytes(p.whitelisted_tokens),
            i2.admin + i2.usdc_token + u32_be(i2.platform_fee_bps) + u64_be(i2.remittance_counter) + i128_be(i2.accumulated_fees) + seq![if i2.paused { 1u8 } else { 0u8 }] + u32_be(i2.admin_count) + remittances_bytes(p.remittances) + addresses_bytes(p.agents) + addresses_bytes(p.admin_roles) + ids_bytes(p.settlement_hashes),
            addresses_bytes(p.whitelisted_tokens),
        );
        lemma_concat_split(
            i1.admin + i1.usdc_token + u32_be(i1.platform_fee_bps) + u64_be(i1.remittance_counter) + i128_be(i1.accumulated_fees) + seq![if i1.paused { 1u8 } else { 0u8 }] + u32_be(i1.admin_count) + remittances_bytes(p.remittances) + addresses_bytes(p.agents) + addresses_bytes(p.admin_roles),
            ids_bytes(p.settlement_hashes),
            i2.admin + i2.usdc_token + u32_be(i2.platform_fee_bps) + u64_be(i2.remittance_counter) + i128_be(i2.accumulated_fees) + seq![if i2.paused { 1u8 } else { 0u8 }] + u32_be(i2.admin_count) + remittances_bytes(p.remittances) + addresses_bytes(p.agents) + addresses_bytes(p.admin_roles),
            ids_bytes(p.settlement_hashes),
        );
        lemma_concat_split(
            i1.admin + i1.usdc_token + u32_be(i1.platform_fee_bps) + u64_be(i1.remittance_counter) + i128_be(i1.accumulated_fees) + seq![if i1.paused { 1u8 } else { 0u8 }] + u32_be(i1.admin_count) + remittances_bytes(p.remittances) + addresses_bytes(p.agents),
            addresses_bytes(p.admin_roles),
            i2.admin + i2.usdc_token + u32_be(i2.platform_fee_bps) + u64_be(i2.remittance_counter) + i128_be(i2.accumulated_fees) + seq![if i2.paused { 1u8 } else { 0u8 }] + u32_be(i2.admin_count) + remittances_bytes(p.remittances) + addresses_bytes(p.agents),
            addresses_bytes(p.admin_roles),
        );
        lemma_concat_split(
            i1.admin + i1.usdc_token + u32_be(i1.platform_fee_bps) + u64_be(i1.remittance_counter) + i128_be(i1.accumulated_fees) + seq![if i1.paused { 1u8 } else { 0u8 }] + u32_be(i1.admin_count) + remittances_bytes(p.remittances),
            addresses_bytes(p.agents),
            i2.admin + i2.usdc_token + u32_be(i2.platform_fee_bps) + u64_be(i2.remittance_counter) + i128_be(i2.accumulated_fees) + seq![if i2.paused { 1u8 } else { 0u8 }] + u32_be(i2.admin_count) + remittances_bytes(p.remittances),
            addresses_bytes(p.agents),
        );
        lemma_concat_split(
            i1.admin + i1.usdc_token + u32_be(i1.platform_fee_bps) + u64_be(i1.remittance_counter) + i128_be(i1.accumulated_fees) + seq![if i1.paused { 1u8 } else { 0u8 }] + u32_be(i1.admin_count),
            remittances_bytes(p.remittances),
            i2.admin + i2.usdc_token + u32_be(i2.platform_fee_bps) + u64_be(i2.remittance_counter) + i128_be(i2.accumulated_fees) + seq![if i2.paused { 1u8 } else { 0u8 }] + u32_be(i2.admin_count),
            remittances_bytes(p.remittances),
        );
        lemma_concat_split(
            i1.admin + i1.usdc_token + u32_be(i1.platform_fee_bps) + u64_be(i1.remittance_counter) + i128_be(i1.accumulated_fees) + seq![if i1.paused { 1u8 } else { 0u8 }],
            u32_be(i1.admin_count),
            i2.admin + i2.usdc_token + u32_be(i2.platform_fee_bps) + u64_be(i2.remittance_counter) + i128_be(i2.accumulated_fees) + seq![if i2.paused { 1u8 } else { 0u8 }],
            u32_be(i2.admin_count),
        );
        lemma_concat_split(
            i1.admin + i1.usdc_token + u32_be(i1.platform_fee_bps) + u64_be(i1.remittance_counter) + i128_be(i1.accumulated_fees),
            seq![if i1.paused { 1u8 } else { 0u8 }],
            i2.admin + i2.usdc_token + u32_be(i2.platform_fee_bps) + u64_be(i2.remittance_counter) + i128_be(i2.accumulated_fees),
            seq![if i2.paused { 1u8 } else { 0u8 }],
        );
        lemma_concat_split(
            i1.admin + i1.usdc_token + u32_be(i1.platform_fee_bps) + u64_be(i1.remittance_counter),
            i128_be(i1.accumulated_fees),
            i2.admin + i2.usdc_token + u32_be(i2.platform_fee_bps) + u64_be(i2.remittance_counter),
            i128_be(i2.accumulated_fees),
        );
        lemma_concat_split(
            i1.admin + i1.usdc_token + u32_be(i1.platform_fee_bps),
            u64_be(i1.remittance_counter),
            i2.admin + i2.usdc_token + u32_be(i2.platform_fee_bps),
            u64_be(i2.remittance_counter),
        );
        lemma_concat_split(
            i1.admin + i1.usdc_token,
            u32_be(i1.platform_fee_bps),
            i2.admin + i2.usdc_token,
            u32_be(i2.platform_fee_bps),
        );
        lemma_concat_split(
            i1.admin,
            i1.usdc_token,
            i2.admin,
            i2.usdc_token,
        );
        lemma_u32_be_injective(l1, l2);
        lemma_u64_be_injective(t1, t2);
        lemma_u32_be_injective(i1.admin_count, i2.admin_count);
        assert(seq![if i1.paused { 1u8 } else { 0u8 }][0] == seq![if i2.paused { 1u8 } else { 0u8 }][0]);
        lemma_i128_be_injective(i1.accumulated_fees, i2.accumulated_fees);
        lemma_u64_be_injective(i1.remittance_counter, i2.remittance_counter);
        lemma_u32_be_injective(i1.platform_fee_bps, i2.platform_fee_bps);
    }
}

} // verus!
