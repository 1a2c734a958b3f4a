//! Verification status of Stellar assets.
//!
//! The checks themselves (stellar.toml, trustlines, reputation) run off-chain;
//! the contract stores their outcome per asset, keyed by asset code and issuer.

use vstd::prelude::*;

use crate::errors::ContractError;
use crate::storage::Storage;
use crate::types::Address;

verus! {

/// Verification status of an asset.
#[derive(Clone, Copy, Debug, PartialEq, Eq, Structural, Hash)]
pub enum VerificationStatus {
    /// Verified through several trusted sources.
    Verified,
    /// Not verified, or verification pending.
    Unverified,
    /// Flagged as suspicious.
    Suspicious,
}

/// The abstract content of an [`AssetVerification`].
pub struct AssetVerificationView {
    pub asset_code: Seq<char>,
    pub issuer: Seq<u8>,
    pub status: VerificationStatus,
    pub reputation_score: u32,
    pub last_verified: u64,
    pub trustline_count: u64,
    pub has_toml: bool,
}

/// Verification record of one asset.
#[derive(Clone, Debug, PartialEq, Eq)]
pub struct AssetVerification {
    /// Asset code, such as `USDC`.
    pub asset_code: String,
    /// The issuer.
    pub issuer: Address,
    /// Current verification status.
    pub status: VerificationStatus,
    /// Reputation score (0 to 100).
    pub reputation_score: u32,
    /// Time of the last verification check.
    pub last_verified: u64,
    /// Number of trustlines, as last seen.
    pub trustline_count: u64,
    /// Whether the asset has a valid stellar.toml.
    pub has_toml: bool,
}

impl View for AssetVerification {
    type V = AssetVerificationView;

    open spec fn view(&self) -> AssetVerificationView {
        AssetVerificationView {
            asset_code: self.asset_code@,
            issuer: self.issuer@,
            status: self.status,
            reputation_score: self.reputation_score,
            last_verified: self.last_verified,
            trustline_count: self.trustline_count,
            has_toml: self.has_toml,
        }
    }
}

impl AssetVerification {
    /// A second record equal to this one.
    pub fn duplicate(&self) -> (r: AssetVerification)
        ensures
            r@ == self@,
    {
        AssetVerification {
            asset_code: self.asset_code.clone(),
            issuer: self.issuer.duplicate(),
            status: self.status,
            reputation_score: self.reputation_score,
            last_verified: self.last_verified,
            trustline_count: self.trustline_count,
            has_toml: self.has_toml,
        }
    }
}

/// The key under which a record is stored: asset code and issuer.
#[derive(Clone, Debug, PartialEq, Eq)]
pub enum AssetVerificationKey {
    /// Verification record of `(asset_code, issuer)`.
    Verification(String, Address),
}

/// The registry that a sequence of record writes produces: a later write for
/// the same asset replaces an earlier one.
pub open spec fn written_registry(writes: Seq<AssetVerificationView>) -> Map<(Seq<char>, Seq<u8>), AssetVerificationView>
    decreases writes.len(),
{
    if writes.len() == 0 {
        Map::empty()
    } else {
        written_registry(writes.drop_last()).insert(
            (writes.last().asset_code, writes.last().issuer),
            writes.last(),
        )
    }
}

/// Asset verification records, keyed by asset code and issuer.
pub struct AssetRegistry {
    writes: Vec<AssetVerification>,
}

impl View for AssetRegistry {
    type V = Map<(Seq<char>, Seq<u8>), AssetVerificationView>;

    closed spec fn view(&self) -> Map<(Seq<char>, Seq<u8>), AssetVerificationView> {
        written_registry(self.write_log())
    }
}

impl AssetRegistry {
    spec fn write_log(&self) -> Seq<AssetVerificationView> {
        self.writes@.map_values(|w: AssetVerification| w@)
    }

    /// The empty registry.
    pub fn new() -> (r: Self)
        ensures
            r@ == Map::<(Seq<char>, Seq<u8>), AssetVerificationView>::empty(),
    {
        let r = AssetRegistry { writes: Vec::new() };
        assert(r.write_log() =~= Seq::<AssetVerificationView>::empty());
        r
    }

    /// Stores `record` under its asset code and issuer.
    pub fn insert(&mut self, record: AssetVerification)
        ensures
            final(self)@ == old(self)@.insert((record@.asset_code, record@.issuer), record@),
    {
        let ghost v = record@;
        self.writes.push(record);
        assert(self.write_log().drop_last() =~= old(self).write_log());
        assert(self.write_log().last() == v);
    }

    /// The record stored for `(asset_code, issuer)`, if any.
    pub fn get(&self, asset_code: &String, issuer: &Address) -> (r: Option<AssetVerification>)
        ensures
            self@.contains_key((asset_code@, issuer@)) <==> r is Some,
            r matches Some(v) ==> v@ == self@[(asset_code@, issuer@)],
    {
        let ghost log = self.write_log();
        let ghost key = (asset_code@, issuer@);
        let mut i: usize = self.writes.len();
        assert(log.take(i as int) =~= log);
        while i > 0
            invariant
                i <= self.writes@.len(),
                log == self.write_log(),
                log.len() == self.writes@.len(),
                key == (asset_code@, issuer@),
                written_registry(log).contains_key(key) == written_registry(log.take(i as int)).contains_key(key),
                written_registry(log).contains_key(key) ==> written_registry(log)[key] == written_registry(log.take(i as int))[key],
            decreases i,
        {
            let ghost prefix = log.take(i as int);
            assert(prefix.drop_last() =~= log.take(i - 1));
            assert(prefix.last() == log[i - 1]);
            let entry = &self.writes[i - 1];
            if entry.asset_code == *asset_code && entry.issuer.same_as(issuer) {
                return Some(entry.duplicate());
            }
            i = i - 1;
        }
        assert(log.take(0) =~= Seq::<AssetVerificationView>::empty());
        None
    }
}

/// Stores a verification record under its asset code and issuer.
pub fn set_asset_verification(store: &mut Storage, verification: &AssetVerification)
    ensures
        final(store)@ == (crate::storage::StorageModel {
            asset_verifications: old(store)@.asset_verifications.insert(
                (verification@.asset_code, verification@.issuer),
                verification@,
            ),
            ..old(store)@
        }),
{
    crate::storage::store_asset_verification(store, verification.duplicate());
}

/// The verification record of `(asset_code, issuer)`, or `AssetNotFound`.
pub fn get_asset_verification(store: &Storage, asset_code: &String, issuer: &Address) -> (r: Result<AssetVerification, ContractError>)
    ensures
        store@.asset_verifications.contains_key((asset_code@, issuer@)) <==> r is Ok,
        r matches Ok(v) ==> v@ == store@.asset_verifications[(asset_code@, issuer@)],
        r is Err ==> r == Err::<AssetVerification, ContractError>(ContractError::AssetNotFound),
{
    match crate::storage::stored_asset_verification(store, asset_code, issuer) {
        Some(v) => Ok(v),
        None => Err(ContractError::AssetNotFound),
    }
}

/// Whether a verification record exists for `(asset_code, issuer)`.
pub fn has_asset_verification(store: &Storage, asset_code: &String, issuer: &Address) -> (b: bool)
    ensures
        b == store@.asset_verifications.contains_key((asset_code@, issuer@)),
{
    crate::storage::stored_asset_verification(store, asset_code, issuer).is_some()
}

} // verus!
