//! The contract's operations: configuration, agent management, and the
//! escrow flow of a remittance (create, confirm payout, cancel) with fee
//! collection and withdrawal.
//!
//! Every operation works on the contract's [`Storage`]. Token movements are
//! not performed here: an operation appends the transfers it requires to
//! `transfers`, and its caller carries them out on the token contract.
//! Authorization of the admin, sender or agent is checked by the caller
//! before an operation runs. An operation that fails changes nothing.

use vstd::prelude::*;

use crate::asset_verification::{
    get_asset_verification, has_asset_verification, set_asset_verification, AssetVerification,
    AssetVerificationView, VerificationStatus,
};
use crate::errors::ContractError;
use crate::escrow::{
    deposit, escrow_obligations, escrow_share, inflow, lemma_pending_total_insert, lemma_push_transfer,
    net_inflow, payout, pending_total, transfer_views, TokenTransfer, TransferDirection,
};
use crate::storage::{
    flag_set, get_accumulated_fees, get_admin, get_platform_fee_bps, get_remittance, get_remittance_counter,
    get_usdc_token, has_admin, has_settlement_hash, is_agent_registered, is_kyc_approved, is_kyc_expired,
    is_paused, is_user_blacklisted, kyc_expired, set_accumulated_fees, set_admin, set_agent_registered,
    set_kyc_approved, set_kyc_expiry, set_paused, set_platform_fee_bps, set_remittance, set_remittance_counter,
    set_settlement_hash, set_usdc_token, set_user_blacklisted, Storage, StorageModel,
};
use crate::types::{Address, Remittance, RemittanceStatus, RemittanceView};

verus! {

/// The highest platform fee, in basis points (100%).
pub const MAX_FEE_BPS: u32 = 10000;

/// The highest reputation score of an asset.
pub const MAX_REPUTATION_SCORE: u32 = 100;

/// Basis points in a whole.
pub const BPS_DENOMINATOR: i128 = 10000;

/// The fee on `amount` at `fee_bps` basis points, rounded down.
pub open spec fn remittance_fee(amount: i128, fee_bps: u32) -> int {
    (amount as int * fee_bps as int) / 10000
}

/// Why `initialize` fails on `m`, if it does.
pub open spec fn initialize_error(m: StorageModel, fee_bps: u32) -> Option<ContractError> {
    if m.admin is Some {
        Some(ContractError::AlreadyInitialized)
    } else if fee_bps > 10000 {
        Some(ContractError::InvalidFeeBps)
    } else {
        None
    }
}

/// Why `create_remittance` fails on `m`, if it does.
pub open spec fn create_remittance_error(m: StorageModel, agent: Seq<u8>, amount: i128) -> Option<ContractError> {
    if amount <= 0 {
        Some(ContractError::InvalidAmount)
    } else if !flag_set(m.agents, agent) {
        Some(ContractError::AgentNotRegistered)
    } else if m.platform_fee_bps is None {
        Some(ContractError::NotInitialized)
    } else if amount as int * m.platform_fee_bps.unwrap() as int > i128::MAX {
        Some(ContractError::Overflow)
    } else if m.usdc_token is None {
        Some(ContractError::NotInitialized)
    } else if m.remittance_counter is None {
        Some(ContractError::NotInitialized)
    } else if m.remittance_counter.unwrap() == u64::MAX {
        Some(ContractError::Overflow)
    } else {
        None
    }
}

/// Why `confirm_payout` of remittance `id` at time `now` fails on `m`, if it does.
pub open spec fn confirm_payout_error(m: StorageModel, id: u64, now: u64) -> Option<ContractError> {
    if m.paused {
        Some(ContractError::ContractPaused)
    } else if !m.remittances.contains_key(id) {
        Some(ContractError::RemittanceNotFound)
    } else if m.remittances[id].status != RemittanceStatus::Pending {
        Some(ContractError::InvalidStatus)
    } else if m.settlement_hashes.contains(id) {
        Some(ContractError::DuplicateSettlement)
    } else if m.remittances[id].expiry is Some && now > m.remittances[id].expiry.unwrap() {
        Some(ContractError::SettlementExpired)
    } else if m.remittances[id].amount - m.remittances[id].fee < i128::MIN
        || m.remittances[id].amount - m.remittances[id].fee > i128::MAX {
        Some(ContractError::Overflow)
    } else if m.usdc_token is None {
        Some(ContractError::NotInitialized)
    } else if m.accumulated_fees is None {
        Some(ContractError::NotInitialized)
    } else if m.accumulated_fees.unwrap() + m.remittances[id].fee < i128::MIN
        || m.accumulated_fees.unwrap() + m.remittances[id].fee > i128::MAX {
        Some(ContractError::Overflow)
    } else {
        None
    }
}

/// The storage after remittance `id` of `m` is settled.
pub open spec fn settled_model(m: StorageModel, id: u64) -> StorageModel {
    StorageModel {
        accumulated_fees: Some((m.accumulated_fees.unwrap() + m.remittances[id].fee) as i128),
        remittances: m.remittances.insert(id, RemittanceView { status: RemittanceStatus::Completed, ..m.remittances[id] }),
        settlement_hashes: m.settlement_hashes.insert(id),
        ..m
    }
}

/// The storage after remittance `id` of `m` is cancelled.
pub open spec fn cancelled_model(m: StorageModel, id: u64) -> StorageModel {
    StorageModel {
        remittances: m.remittances.insert(id, RemittanceView { status: RemittanceStatus::Cancelled, ..m.remittances[id] }),
        ..m
    }
}

/// Why `cancel_remittance` of remittance `id` fails on `m`, if it does.
pub open spec fn cancel_remittance_error(m: StorageModel, id: u64) -> Option<ContractError> {
    if !m.remittances.contains_key(id) {
        Some(ContractError::RemittanceNotFound)
    } else if m.remittances[id].status != RemittanceStatus::Pending {
        Some(ContractError::InvalidStatus)
    } else if m.usdc_token is None {
        Some(ContractError::NotInitialized)
    } else {
        None
    }
}

/// Why `withdraw_fees` fails on `m`, if it does.
pub open spec fn withdraw_fees_error(m: StorageModel) -> Option<ContractError> {
    if m.admin is None {
        Some(ContractError::NotInitialized)
    } else if m.accumulated_fees is None {
        Some(ContractError::NotInitialized)
    } else if m.accumulated_fees.unwrap() <= 0 {
        Some(ContractError::NoFeesToWithdraw)
    } else if m.usdc_token is None {
        Some(ContractError::NotInitialized)
    } else {
        None
    }
}

/// The result of an admin operation: `NotInitialized` without an admin.
pub open spec fn admin_result(m: StorageModel) -> Result<(), ContractError> {
    if m.admin is Some { Ok(()) } else { Err(ContractError::NotInitialized) }
}

/// The SwiftRemit contract.
pub struct SwiftRemitContract;

impl SwiftRemitContract {
    /// Stores the admin, the USDC token and the platform fee, and starts the
    /// remittance counter and the collected fees at zero.
    pub fn initialize(store: &mut Storage, admin: &Address, usdc_token: &Address, fee_bps: u32) -> (r: Result<(), ContractError>)
        ensures
            match initialize_error(old(store)@, fee_bps) {
                Some(e) => r == Err::<(), ContractError>(e) && final(store)@ == old(store)@,
                None => r is Ok && final(store)@ == (StorageModel {
                    admin: Some(admin@),
                    usdc_token: Some(usdc_token@),
                    platform_fee_bps: Some(fee_bps),
                    remittance_counter: Some(0),
                    accumulated_fees: Some(0),
                    ..old(store)@
                }),
            },
    {
        if has_admin(store) {
            return Err(ContractError::AlreadyInitialized);
        }
        if fee_bps > MAX_FEE_BPS {
            return Err(ContractError::InvalidFeeBps);
        }
        set_admin(store, admin);
        set_usdc_token(store, usdc_token);
        set_platform_fee_bps(store, fee_bps);
        set_remittance_counter(store, 0);
        set_accumulated_fees(store, 0);
        Ok(())
    }

    /// Registers `agent` as a payout agent (admin operation).
    pub fn register_agent(store: &mut Storage, agent: &Address) -> (r: Result<(), ContractError>)
        ensures
            r == admin_result(old(store)@),
            r is Ok ==> final(store)@ == (StorageModel { agents: old(store)@.agents.insert(agent@, true), ..old(store)@ }),
            r is Err ==> final(store)@ == old(store)@,
    {
        let _admin = get_admin(store)?;
        set_agent_registered(store, agent, true);
        Ok(())
    }

    /// Deregisters `agent` (admin operation).
    pub fn remove_agent(store: &mut Storage, agent: &Address) -> (r: Result<(), ContractError>)
        ensures
            r == admin_result(old(store)@),
            r is Ok ==> final(store)@ == (StorageModel { agents: old(store)@.agents.insert(agent@, false), ..old(store)@ }),
            r is Err ==> final(store)@ == old(store)@,
    {
        let _admin = get_admin(store)?;
        set_agent_registered(store, agent, false);
        Ok(())
    }

    /// Sets the platform fee (admin operation); at most 10000 basis points.
    pub fn update_fee(store: &mut Storage, fee_bps: u32) -> (r: Result<(), ContractError>)
        ensures
            r == (if old(store)@.admin is None {
                Err(ContractError::NotInitialized)
            } else if fee_bps > 10000 {
                Err(ContractError::InvalidFeeBps)
            } else {
                Ok(())
            }),
            r is Ok ==> final(store)@ == (StorageModel { platform_fee_bps: Some(fee_bps), ..old(store)@ }),
            r is Err ==> final(store)@ == old(store)@,
    {
        let _admin = get_admin(store)?;
        if fee_bps > MAX_FEE_BPS {
            return Err(ContractError::InvalidFeeBps);
        }
        set_platform_fee_bps(store, fee_bps);
        Ok(())
    }

    /// Creates a remittance of `amount` from `sender` to `agent`, escrowing
    /// the amount and fixing the platform fee, and returns its id (the
    /// counter plus one).
    pub fn create_remittance(
        store: &mut Storage,
        transfers: &mut Vec<TokenTransfer>,
        sender: Address,
        agent: Address,
        amount: i128,
        expiry: Option<u64>,
    ) -> (r: Result<u64, ContractError>)
        ensures
            match create_remittance_error(old(store)@, agent@, amount) {
                Some(e) => r == Err::<u64, ContractError>(e) && final(store)@ == old(store)@
                    && final(transfers)@ == old(transfers)@,
                None => {
                    let id = (old(store)@.remittance_counter.unwrap() + 1) as u64;
                    let fee = remittance_fee(amount, old(store)@.platform_fee_bps.unwrap()) as i128;
                    &&& r == Ok::<u64, ContractError>(id)
                    &&& final(store)@ == (StorageModel {
                        remittances: old(store)@.remittances.insert(id, RemittanceView {
                            id,
                            sender: sender@,
                            agent: agent@,
                            amount,
                            fee,
                            status: RemittanceStatus::Pending,
                            expiry,
                        }),
                        remittance_counter: Some(id),
                        ..old(store)@
                    })
                    &&& transfer_views(final(transfers)@) == transfer_views(old(transfers)@).push(deposit(sender@, amount))
                },
            },
            // The fee never exceeds the amount while the platform fee is at most 100%.
            r is Ok && old(store)@.platform_fee_bps.unwrap() <= 10000 ==> {
                let fee = remittance_fee(amount, old(store)@.platform_fee_bps.unwrap());
                0 <= fee <= amount
            },
            // The deposit is exactly what the escrow now owes in addition.
            r matches Ok(id) && !old(store)@.remittances.contains_key(id) ==> escrow_obligations(final(store)@)
                == escrow_obligations(old(store)@) + net_inflow(transfer_views(final(transfers)@))
                - net_inflow(transfer_views(old(transfers)@)),
    {
        proof {
            store.lemma_finite_remittances();
        }
        if amount <= 0 {
            return Err(ContractError::InvalidAmount);
        }
        if !is_agent_registered(store, &agent) {
            return Err(ContractError::AgentNotRegistered);
        }
        let fee_bps = get_platform_fee_bps(store)?;
        let product = match amount.checked_mul(fee_bps as i128) {
            Some(p) => p,
            None => return Err(ContractError::Overflow),
        };
        let fee = product / BPS_DENOMINATOR;
        let _usdc_token = get_usdc_token(store)?;
        let counter = get_remittance_counter(store)?;
        let remittance_id = match counter.checked_add(1) {
            Some(id) => id,
            None => return Err(ContractError::Overflow),
        };
        let depositor = sender.duplicate();
        let remittance = Remittance {
            id: remittance_id,
            sender,
            agent,
            amount,
            fee,
            status: RemittanceStatus::Pending,
            expiry,
        };
        set_remittance(store, remittance_id, &remittance);
        set_remittance_counter(store, remittance_id);
        let t = TokenTransfer { direction: TransferDirection::IntoEscrow, party: depositor, amount };
        proof {
            lemma_push_transfer(transfers@, t);
            lemma_pending_total_insert(old(store)@.remittances, remittance_id, remittance@);
            if fee_bps <= 10000 {
                assert(product <= amount * 10000) by (nonlinear_arith)
                    requires product == amount * fee_bps, fee_bps <= 10000, amount > 0;
                assert(product >= 0) by (nonlinear_arith)
                    requires product == amount * fee_bps, amount > 0;
            }
        }
        transfers.push(t);
        Ok(remittance_id)
    }

    /// Settles remittance `remittance_id` at ledger time `now`: pays the
    /// agent the amount minus the fee, adds the fee to the collected fees,
    /// marks the remittance `Completed` and records it as settled.
    pub fn confirm_payout(store: &mut Storage, transfers: &mut Vec<TokenTransfer>, remittance_id: u64, now: u64) -> (r: Result<(), ContractError>)
        ensures
            match confirm_payout_error(old(store)@, remittance_id, now) {
                Some(e) => r == Err::<(), ContractError>(e) && final(store)@ == old(store)@
                    && final(transfers)@ == old(transfers)@,
                None => {
                    let rem = old(store)@.remittances[remittance_id];
                    &&& r is Ok
                    &&& final(store)@ == settled_model(old(store)@, remittance_id)
                    &&& transfer_views(final(transfers)@) == transfer_views(old(transfers)@).push(
                        payout(rem.agent, (rem.amount - rem.fee) as i128),
                    )
                },
            },
            // What leaves the escrow is exactly what the escrow no longer owes.
            escrow_obligations(final(store)@) == escrow_obligations(old(store)@)
                + net_inflow(transfer_views(final(transfers)@)) - net_inflow(transfer_views(old(transfers)@)),
    {
        proof {
            store.lemma_finite_remittances();
        }
        if is_paused(store) {
            return Err(ContractError::ContractPaused);
        }
        let remittance = get_remittance(store, remittance_id)?;
        if remittance.status != RemittanceStatus::Pending {
            return Err(ContractError::InvalidStatus);
        }
        if has_settlement_hash(store, remittance_id) {
            return Err(ContractError::DuplicateSettlement);
        }
        if let Some(expiry_time) = remittance.expiry {
            if now > expiry_time {
                return Err(ContractError::SettlementExpired);
            }
        }
        let payout_amount = match remittance.amount.checked_sub(remittance.fee) {
            Some(p) => p,
            None => return Err(ContractError::Overflow),
        };
        let _usdc_token = get_usdc_token(store)?;
        let current_fees = get_accumulated_fees(store)?;
        let new_fees = match current_fees.checked_add(remittance.fee) {
            Some(f) => f,
            None => return Err(ContractError::Overflow),
        };
        let ghost before = remittance@;
        set_accumulated_fees(store, new_fees);
        let recipient = remittance.agent.duplicate();
        let mut settled = remittance;
        settled.status = RemittanceStatus::Completed;
        set_remittance(store, remittance_id, &settled);
        set_settlement_hash(store, remittance_id);
        let t = TokenTransfer { direction: TransferDirection::OutOfEscrow, party: recipient, amount: payout_amount };
        proof {
            lemma_push_transfer(transfers@, t);
            lemma_pending_total_insert(old(store)@.remittances, remittance_id, settled@);
            assert(settled@ == (RemittanceView { status: RemittanceStatus::Completed, ..before }));
        }
        transfers.push(t);
        Ok(())
    }

    /// Cancels pending remittance `remittance_id`, refunding the full amount
    /// to the sender and marking it `Cancelled`; no fee is collected.
    pub fn cancel_remittance(store: &mut Storage, transfers: &mut Vec<TokenTransfer>, remittance_id: u64) -> (r: Result<(), ContractError>)
        ensures
            match cancel_remittance_error(old(store)@, remittance_id) {
                Some(e) => r == Err::<(), ContractError>(e) && final(store)@ == old(store)@
                    && final(transfers)@ == old(transfers)@,
                None => {
                    let rem = old(store)@.remittances[remittance_id];
                    &&& r is Ok
                    &&& final(store)@ == cancelled_model(old(store)@, remittance_id)
                    &&& transfer_views(final(transfers)@) == transfer_views(old(transfers)@).push(
                        payout(rem.sender, rem.amount),
                    )
                },
            },
            // The refund is exactly what the escrow no longer owes.
            escrow_obligations(final(store)@) == escrow_obligations(old(store)@)
                + net_inflow(transfer_views(final(transfers)@)) - net_inflow(transfer_views(old(transfers)@)),
    {
        proof {
            store.lemma_finite_remittances();
        }
        let remittance = get_remittance(store, remittance_id)?;
        if remittance.status != RemittanceStatus::Pending {
            return Err(ContractError::InvalidStatus);
        }
        let _usdc_token = get_usdc_token(store)?;
        let ghost before = remittance@;
        let refund_to = remittance.sender.duplicate();
        let refund = remittance.amount;
        let mut cancelled = remittance;
        cancelled.status = RemittanceStatus::Cancelled;
        set_remittance(store, remittance_id, &cancelled);
        let t = TokenTransfer { direction: TransferDirection::OutOfEscrow, party: refund_to, amount: refund };
        proof {
            lemma_push_transfer(transfers@, t);
            lemma_pending_total_insert(old(store)@.remittances, remittance_id, cancelled@);
            assert(cancelled@ == (RemittanceView { status: RemittanceStatus::Cancelled, ..before }));
        }
        transfers.push(t);
        Ok(())
    }

    /// Pays all collected fees to `to` and resets them to zero (admin operation).
    pub fn withdraw_fees(store: &mut Storage, transfers: &mut Vec<TokenTransfer>, to: &Address) -> (r: Result<(), ContractError>)
        ensures
            match withdraw_fees_error(old(store)@) {
                Some(e) => r == Err::<(), ContractError>(e) && final(store)@ == old(store)@
                    && final(transfers)@ == old(transfers)@,
                None => {
                    &&& r is Ok
                    &&& final(store)@ == (StorageModel { accumulated_fees: Some(0), ..old(store)@ })
                    &&& transfer_views(final(transfers)@) == transfer_views(old(transfers)@).push(
                        payout(to@, old(store)@.accumulated_fees.unwrap()),
                    )
                },
            },
            // The withdrawal is exactly what the escrow no longer owes.
            escrow_obligations(final(store)@) == escrow_obligations(old(store)@)
                + net_inflow(transfer_views(final(transfers)@)) - net_inflow(transfer_views(old(transfers)@)),
    {
        let _admin = get_admin(store)?;
        let fees = get_accumulated_fees(store)?;
        if fees <= 0 {
            return Err(ContractError::NoFeesToWithdraw);
        }
        let _usdc_token = get_usdc_token(store)?;
        set_accumulated_fees(store, 0);
        let t = TokenTransfer { direction: TransferDirection::OutOfEscrow, party: to.duplicate(), amount: fees };
        proof {
            lemma_push_transfer(transfers@, t);
        }
        transfers.push(t);
        Ok(())
    }

    /// The remittance stored under `remittance_id`.
    pub fn get_remittance(store: &Storage, remittance_id: u64) -> (r: Result<Remittance, ContractError>)
        ensures
            store@.remittances.contains_key(remittance_id) <==> r is Ok,
            r matches Ok(x) ==> x@ == store@.remittances[remittance_id],
            r is Err ==> r == Err::<Remittance, ContractError>(ContractError::RemittanceNotFound),
    {
        get_remittance(store, remittance_id)
    }

    /// The settlement (remittance) stored under `id`.
    pub fn get_settlement(store: &Storage, id: u64) -> (r: Result<Remittance, ContractError>)
        ensures
            store@.remittances.contains_key(id) <==> r is Ok,
            r matches Ok(x) ==> x@ == store@.remittances[id],
            r is Err ==> r == Err::<Remittance, ContractError>(ContractError::RemittanceNotFound),
    {
        get_remittance(store, id)
    }

    /// The fees collected and not yet withdrawn.
    pub fn get_accumulated_fees(store: &Storage) -> (r: Result<i128, ContractError>)
        ensures
            r == (match store@.accumulated_fees {
                Some(f) => Ok(f),
                None => Err(ContractError::NotInitialized),
            }),
    {
        get_accumulated_fees(store)
    }

    /// Whether `agent` is registered.
    pub fn is_agent_registered(store: &Storage, agent: &Address) -> (b: bool)
        ensures
            b == flag_set(store@.agents, agent@),
    {
        is_agent_registered(store, agent)
    }

    /// The platform fee in basis points.
    pub fn get_platform_fee_bps(store: &Storage) -> (r: Result<u32, ContractError>)
        ensures
            r == (match store@.platform_fee_bps {
                Some(f) => Ok(f),
                None => Err(ContractError::NotInitialized),
            }),
    {
        get_platform_fee_bps(store)
    }

    /// Pauses settlements (admin operation).
    pub fn pause(store: &mut Storage) -> (r: Result<(), ContractError>)
        ensures
            r == admin_result(old(store)@),
            r is Ok ==> final(store)@ == (StorageModel { paused: true, ..old(store)@ }),
            r is Err ==> final(store)@ == old(store)@,
    {
        let _admin = get_admin(store)?;
        set_paused(store, true);
        Ok(())
    }

    /// Resumes settlements (admin operation).
    pub fn unpause(store: &mut Storage) -> (r: Result<(), ContractError>)
        ensures
            r == admin_result(old(store)@),
            r is Ok ==> final(store)@ == (StorageModel { paused: false, ..old(store)@ }),
            r is Err ==> final(store)@ == old(store)@,
    {
        let _admin = get_admin(store)?;
        set_paused(store, false);
        Ok(())
    }

    /// Whether settlements are paused.
    pub fn is_paused(store: &Storage) -> (b: bool)
        ensures
            b == store@.paused,
    {
        is_paused(store)
    }

    /// Sets whether `user` is blacklisted (admin operation).
    pub fn set_user_blacklisted(store: &mut Storage, user: &Address, blacklisted: bool) -> (r: Result<(), ContractError>)
        ensures
            r == admin_result(old(store)@),
            r is Ok ==> final(store)@ == (StorageModel {
                blacklisted: old(store)@.blacklisted.insert(user@, blacklisted),
                ..old(store)@
            }),
            r is Err ==> final(store)@ == old(store)@,
    {
        let _admin = get_admin(store)?;
        set_user_blacklisted(store, user, blacklisted);
        Ok(())
    }

    /// Whether `user` is blacklisted.
    pub fn is_user_blacklisted(store: &Storage, user: &Address) -> (b: bool)
        ensures
            b == flag_set(store@.blacklisted, user@),
    {
        is_user_blacklisted(store, user)
    }

    /// Sets `user`'s KYC approval (admin operation); an approval also stores
    /// its expiry time.
    pub fn set_kyc_approved(store: &mut Storage, user: &Address, approved: bool, expiry: u64) -> (r: Result<(), ContractError>)
        ensures
            r == admin_result(old(store)@),
            r is Ok ==> final(store)@ == (StorageModel {
                kyc_approved: old(store)@.kyc_approved.insert(user@, approved),
                kyc_expiry: if approved {
                    old(store)@.kyc_expiry.insert(user@, expiry)
                } else {
                    old(store)@.kyc_expiry
                },
                ..old(store)@
            }),
            r is Err ==> final(store)@ == old(store)@,
    {
        let _admin = get_admin(store)?;
        set_kyc_approved(store, user, approved);
        if approved {
            set_kyc_expiry(store, user, expiry);
        }
        Ok(())
    }

    /// Whether `user`'s KYC is approved and unexpired at ledger time `now`.
    pub fn is_kyc_approved(store: &Storage, user: &Address, now: u64) -> (b: bool)
        ensures
            b == (flag_set(store@.kyc_approved, user@) && !kyc_expired(store@, user@, now)),
    {
        is_kyc_approved(store, user) && !is_kyc_expired(store, user, now)
    }

    /// Records the outcome of an off-chain verification of an asset (admin
    /// operation), stamped with the time `now`; the reputation score is at
    /// most 100.
    pub fn set_asset_verification(
        store: &mut Storage,
        asset_code: &String,
        issuer: &Address,
        status: VerificationStatus,
        reputation_score: u32,
        trustline_count: u64,
        has_toml: bool,
        now: u64,
    ) -> (r: Result<(), ContractError>)
        ensures
            r == (if old(store)@.admin is None {
                Err(ContractError::NotInitialized)
            } else if reputation_score > 100 {
                Err(ContractError::InvalidReputationScore)
            } else {
                Ok(())
            }),
            r is Ok ==> final(store)@ == (StorageModel {
                asset_verifications: old(store)@.asset_verifications.insert(
                    (asset_code@, issuer@),
                    AssetVerificationView {
                        asset_code: asset_code@,
                        issuer: issuer@,
                        status,
                        reputation_score,
                        last_verified: now,
                        trustline_count,
                        has_toml,
                    },
                ),
                ..old(store)@
            }),
            r is Err ==> final(store)@ == old(store)@,
    {
        let _admin = get_admin(store)?;
        if reputation_score > MAX_REPUTATION_SCORE {
            return Err(ContractError::InvalidReputationScore);
        }
        let record = AssetVerification {
            asset_code: asset_code.clone(),
            issuer: issuer.duplicate(),
            status,
            reputation_score,
            last_verified: now,
            trustline_count,
            has_toml,
        };
        set_asset_verification(store, &record);
        Ok(())
    }

    /// The verification record of an asset, or `AssetNotFound`.
    pub fn get_asset_verification(store: &Storage, asset_code: &String, issuer: &Address) -> (r: Result<
        AssetVerification,
        ContractError,
    >)
        ensures
            store@.asset_verifications.contains_key((asset_code@, issuer@)) <==> r is Ok,
            r matches Ok(v) ==> v@ == store@.asset_verifications[(asset_code@, issuer@)],
            r is Err ==> r == Err::<AssetVerification, ContractError>(ContractError::AssetNotFound),
    {
        get_asset_verification(store, asset_code, issuer)
    }

    /// Whether an asset has a verification record.
    pub fn has_asset_verification(store: &Storage, asset_code: &String, issuer: &Address) -> (b: bool)
        ensures
            b == store@.asset_verifications.contains_key((asset_code@, issuer@)),
    {
        has_asset_verification(store, asset_code, issuer)
    }

    /// Refuses an asset that its verification record flags as suspicious;
    /// an asset without a record, or with any other status, passes.
    pub fn validate_asset_safety(store: &Storage, asset_code: &String, issuer: &Address) -> (r: Result<
        (),
        ContractError,
    >)
        ensures
            r == (if store@.asset_verifications.contains_key((asset_code@, issuer@))
                && store@.asset_verifications[(asset_code@, issuer@)].status == VerificationStatus::Suspicious {
                Err(ContractError::SuspiciousAsset)
            } else {
                Ok(())
            }),
    {
        match get_asset_verification(store, asset_code, issuer) {
            Ok(record) => {
                if record.status == VerificationStatus::Suspicious {
                    Err(ContractError::SuspiciousAsset)
                } else {
                    Ok(())
                }
            },
            Err(_) => Ok(()),
        }
    }
}

/// A settled remittance cannot be settled again, at any later time.
pub proof fn lemma_no_double_settlement(m: StorageModel, id: u64, now: u64, later: u64)
    requires
        confirm_payout_error(m, id, now) is None,
    ensures
        confirm_payout_error(settled_model(m, id), id, later) == Some(ContractError::InvalidStatus),
{
}

/// Even with its status forced back to `Pending`, a settled remittance is
/// refused as a duplicate settlement.
pub proof fn lemma_settlement_marker_blocks_replay(m: StorageModel, id: u64, now: u64, later: u64)
    requires
        confirm_payout_error(m, id, now) is None,
    ensures
        ({
            let m2 = settled_model(m, id);
            let reset = StorageModel {
                remittances: m2.remittances.insert(id, RemittanceView { status: RemittanceStatus::Pending, ..m2.remittances[id] }),
                ..m2
            };
            confirm_payout_error(reset, id, later) == Some(ContractError::DuplicateSettlement)
        }),
{
}

/// A settled remittance cannot be cancelled, and a cancelled one can be
/// neither settled nor cancelled again.
pub proof fn lemma_final_escrow_outcomes(m: StorageModel, id: u64, now: u64, later: u64)
    ensures
        confirm_payout_error(m, id, now) is None ==> cancel_remittance_error(settled_model(m, id), id)
            == Some(ContractError::InvalidStatus),
        cancel_remittance_error(m, id) is None ==> {
            &&& cancel_remittance_error(cancelled_model(m, id), id) == Some(ContractError::InvalidStatus)
            &&& (!m.paused ==> confirm_payout_error(cancelled_model(m, id), id, later)
                == Some(ContractError::InvalidStatus))
        },
{
}

/// Settling a remittance adds exactly its fee to the collected fees, and
/// pays the agent exactly the rest of the amount.
pub proof fn lemma_settlement_splits_amount(m: StorageModel, id: u64, now: u64)
    requires
        confirm_payout_error(m, id, now) is None,
    ensures
        settled_model(m, id).accumulated_fees.unwrap() - m.accumulated_fees.unwrap() + (m.remittances[id].amount
            - m.remittances[id].fee) == m.remittances[id].amount,
{
}

/// Cancelling does not depend on whether settlements are paused: a paused
/// contract refuses exactly the cancellations an unpaused one refuses.
pub proof fn lemma_cancel_ignores_pause(m: StorageModel, id: u64)
    ensures
        cancel_remittance_error(m, id) == cancel_remittance_error(StorageModel { paused: false, ..m }, id),
        cancel_remittance_error(m, id) == cancel_remittance_error(StorageModel { paused: true, ..m }, id),
{
}

/// A pending remittance can always be cancelled once the token is set,
/// whatever else the storage holds; anything else is refused.
pub proof fn lemma_pending_remittance_can_be_cancelled(m: StorageModel, id: u64)
    ensures
        (m.remittances.contains_key(id) && m.remittances[id].status == RemittanceStatus::Pending
            && m.usdc_token is Some) <==> cancel_remittance_error(m, id) is None,
{
}

/// Pausing stops settlements and nothing else: a paused contract refuses
/// every payout confirmation, while creating and cancelling remittances and
/// withdrawing fees are refused exactly as when it is not paused.
pub proof fn lemma_pause_blocks_only_settlement(m: StorageModel, agent: Seq<u8>, amount: i128, id: u64, now: u64)
    requires
        m.paused,
    ensures
        confirm_payout_error(m, id, now) == Some(ContractError::ContractPaused),
        create_remittance_error(m, agent, amount) == create_remittance_error(StorageModel { paused: false, ..m }, agent, amount),
        cancel_remittance_error(m, id) == cancel_remittance_error(StorageModel { paused: false, ..m }, id),
        withdraw_fees_error(m) == withdraw_fees_error(StorageModel { paused: false, ..m }),
{
}

/// A remittance is settled only if it was pending, not settled before, and
/// its expiry (if any) has not passed; only a positive amount for a
/// registered agent creates a remittance.
pub proof fn lemma_settlement_and_creation_conditions(m: StorageModel, agent: Seq<u8>, amount: i128, id: u64, now: u64)
    ensures
        confirm_payout_error(m, id, now) is None ==> {
            &&& m.remittances.contains_key(id)
            &&& m.remittances[id].status == RemittanceStatus::Pending
            &&& !m.settlement_hashes.contains(id)
            &&& (m.remittances[id].expiry matches Some(e) ==> now <= e)
        },
        create_remittance_error(m, agent, amount) is None ==> amount > 0 && flag_set(m.agents, agent),
{
}

/// The fee is the amount times the basis points over 10000, rounded down:
/// the largest whole number of token units not above that share.
pub proof fn lemma_fee_is_basis_point_share(amount: i128, fee_bps: u32)
    requires
        amount >= 0,
    ensures
        remittance_fee(amount, fee_bps) * 10000 <= amount * fee_bps,
        amount * fee_bps < (remittance_fee(amount, fee_bps) + 1) * 10000,
        remittance_fee(amount, fee_bps) >= 0,
{
    let p = amount as int * fee_bps as int;
    assert(p >= 0) by (nonlinear_arith)
        requires
            amount >= 0,
            fee_bps >= 0,
            p == amount as int * fee_bps as int,
    ;
}

/// Fees can be withdrawn exactly when the contract is initialized and has
/// collected a positive amount of fees.
pub proof fn lemma_withdrawal_needs_fees(m: StorageModel)
    ensures
        withdraw_fees_error(m) is None <==> (m.admin is Some && m.usdc_token is Some && m.accumulated_fees is Some
            && m.accumulated_fees.unwrap() > 0),
{
}

} // verus!
