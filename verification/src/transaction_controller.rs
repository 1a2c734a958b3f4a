//! Orchestration of a complete transfer: eligibility, KYC, escrow deposit,
//! anchor operation and audit record, with retries and rollback.

use vstd::prelude::*;

use crate::contract::{create_remittance_error, remittance_fee, SwiftRemitContract};
use crate::errors::ContractError;
use crate::escrow::{deposit, lemma_push_transfer, payout, transfer_views, TokenTransfer, TransferDirection};
use crate::storage::{
    flag_set, get_remittance, get_transaction_record, get_usdc_token, is_kyc_approved, is_kyc_expired,
    is_user_blacklisted, kyc_expired, remove_anchor_transaction, set_anchor_transaction, set_remittance,
    set_transaction_record, Storage, StorageModel,
};
use crate::types::{Address, RemittanceStatus, RemittanceView};

verus! {

/// Progress of a transaction through its steps.
#[derive(Clone, Copy, Debug, PartialEq, Eq, Structural)]
pub enum TransactionState {
    /// Nothing done yet.
    Initial,
    /// The user is eligible.
    EligibilityValidated,
    /// The user's KYC is approved and current.
    KycConfirmed,
    /// The remittance was created.
    ContractCalled { remittance_id: u64 },
    /// The anchor operation was initiated.
    AnchorInitiated { anchor_tx_id: u64 },
    /// The transaction record was stored.
    RecordStored,
    /// All steps succeeded.
    Completed,
    /// The transaction failed and was rolled back.
    RolledBack,
}

/// The abstract content of a [`TransactionRecord`].
pub struct TransactionRecordView {
    pub user: Seq<u8>,
    pub agent: Seq<u8>,
    pub amount: i128,
    pub remittance_id: Option<u64>,
    pub anchor_tx_id: Option<u64>,
    pub state: TransactionState,
    pub retry_count: u32,
    pub timestamp: u64,
}

/// Audit record of a transaction.
#[derive(Clone, Debug, PartialEq, Eq)]
pub struct TransactionRecord {
    /// The sending user.
    pub user: Address,
    /// The payout agent.
    pub agent: Address,
    /// The amount sent.
    pub amount: i128,
    /// The remittance created, once created.
    pub remittance_id: Option<u64>,
    /// The anchor operation, once initiated.
    pub anchor_tx_id: Option<u64>,
    /// Progress through the steps.
    pub state: TransactionState,
    /// Attempt number of the last run (0 for the first).
    pub retry_count: u32,
    /// Ledger time at which the transaction started.
    pub timestamp: u64,
}

impl View for TransactionRecord {
    type V = TransactionRecordView;

    open spec fn view(&self) -> TransactionRecordView {
        TransactionRecordView {
            user: self.user@,
            agent: self.agent@,
            amount: self.amount,
            remittance_id: self.remittance_id,
            anchor_tx_id: self.anchor_tx_id,
            state: self.state,
            retry_count: self.retry_count,
            timestamp: self.timestamp,
        }
    }
}

impl TransactionRecord {
    /// A second record equal to this one.
    pub fn duplicate(&self) -> (r: TransactionRecord)
        ensures
            r@ == self@,
    {
        TransactionRecord {
            user: self.user.duplicate(),
            agent: self.agent.duplicate(),
            amount: self.amount,
            remittance_id: self.remittance_id,
            anchor_tx_id: self.anchor_tx_id,
            state: self.state,
            retry_count: self.retry_count,
            timestamp: self.timestamp,
        }
    }
}

} // verus!

verus! {

/// Attempts after the first one for a transaction that fails transiently.
pub const MAX_RETRIES: u32 = 3;

/// Factor applied to the remittance id when deriving an anchor operation id.
pub const ANCHOR_ID_MULTIPLIER: u64 = 1000000;

/// The anchor operation id derived from remittance `remittance_id` at time
/// `now`: `remittance_id * 1000000 + now`, wrapping around at 2^64.
pub open spec fn anchor_tx_id_of(remittance_id: u64, now: u64) -> u64 {
    vstd::wrapping::u64_specs::wrapping_add(vstd::wrapping::u64_specs::wrapping_mul(remittance_id, 1000000), now)
}

/// Whether a failure is transient, so that the transaction is tried again.
pub open spec fn retryable(e: ContractError) -> bool {
    e == ContractError::Overflow || e == ContractError::NotInitialized
}

/// Why `user` may not transact at time `now` in `m`, if so.
pub open spec fn eligibility_error(m: StorageModel, user: Seq<u8>, now: u64) -> Option<ContractError> {
    if flag_set(m.blacklisted, user) {
        Some(ContractError::UserBlacklisted)
    } else if !flag_set(m.kyc_approved, user) {
        Some(ContractError::KycNotApproved)
    } else if kyc_expired(m, user, now) {
        Some(ContractError::KycExpired)
    } else {
        None
    }
}

/// Why a transaction of `amount` from `user` to `agent` at time `now` fails on `m`, if it does.
pub open spec fn transaction_error(m: StorageModel, user: Seq<u8>, agent: Seq<u8>, amount: i128, now: u64) -> Option<ContractError> {
    match eligibility_error(m, user, now) {
        Some(e) => Some(e),
        None => create_remittance_error(m, agent, amount),
    }
}

/// The storage after the steps of transaction `rec` succeed on `m`: the
/// remittance is created, the anchor operation mapped to it and the record
/// (with its anchor operation) stored under the remittance id.
pub open spec fn executed_model(m: StorageModel, rec: TransactionRecordView, expiry: Option<u64>, now: u64) -> StorageModel {
    let id = (m.remittance_counter.unwrap() + 1) as u64;
    let anchor = anchor_tx_id_of(id, now);
    StorageModel {
        remittances: m.remittances.insert(id, RemittanceView {
            id,
            sender: rec.user,
            agent: rec.agent,
            amount: rec.amount,
            fee: remittance_fee(rec.amount, m.platform_fee_bps.unwrap()) as i128,
            status: RemittanceStatus::Pending,
            expiry,
        }),
        remittance_counter: Some(id),
        anchor_transactions: m.anchor_transactions.insert(anchor, id),
        transaction_records: m.transaction_records.insert(id, TransactionRecordView {
            remittance_id: Some(id),
            anchor_tx_id: Some(anchor),
            state: TransactionState::AnchorInitiated { anchor_tx_id: anchor },
            ..rec
        }),
        ..m
    }
}

/// The record of transaction `rec` after its steps succeeded on `m`.
pub open spec fn executed_record(m: StorageModel, rec: TransactionRecordView, now: u64) -> TransactionRecordView {
    let id = (m.remittance_counter.unwrap() + 1) as u64;
    TransactionRecordView {
        remittance_id: Some(id),
        anchor_tx_id: Some(anchor_tx_id_of(id, now)),
        state: TransactionState::RecordStored,
        ..rec
    }
}

/// The states a transaction can be left in by a failed attempt.
pub open spec fn early_state(s: TransactionState) -> bool {
    s == TransactionState::Initial || s == TransactionState::EligibilityValidated
        || s == TransactionState::KycConfirmed
}

/// Whether rolling back from state `s` cancels the anchor operation.
pub open spec fn cancels_anchor(s: TransactionState) -> bool {
    s == TransactionState::RecordStored || s is AnchorInitiated
}

/// Whether rolling back from state `s` reverses the remittance.
pub open spec fn reverses_remittance(s: TransactionState) -> bool {
    cancels_anchor(s) || s is ContractCalled
}

/// Why reversing remittance `rid` fails on `m`, if it does.
pub open spec fn reversal_error(m: StorageModel, rid: Option<u64>) -> Option<ContractError> {
    match rid {
        None => None,
        Some(id) => if !m.remittances.contains_key(id) {
            Some(ContractError::RemittanceNotFound)
        } else if m.remittances[id].status != RemittanceStatus::Pending {
            None
        } else if m.usdc_token is None {
            Some(ContractError::NotInitialized)
        } else {
            None
        },
    }
}

/// Whether reversing remittance `rid` on `m` refunds it (it is still pending).
pub open spec fn reversal_refunds(m: StorageModel, rid: Option<u64>) -> bool {
    rid is Some && m.remittances.contains_key(rid.unwrap())
        && m.remittances[rid.unwrap()].status == RemittanceStatus::Pending
}

/// `m` with remittance `id` cancelled.
pub open spec fn cancelled_in(m: StorageModel, id: u64) -> StorageModel {
    StorageModel {
        remittances: m.remittances.insert(id, RemittanceView { status: RemittanceStatus::Cancelled, ..m.remittances[id] }),
        ..m
    }
}

/// `m` with the anchor operation of `rec` removed when rolling back from its state cancels it.
pub open spec fn anchor_cancelled_in(m: StorageModel, rec: TransactionRecordView) -> StorageModel {
    if cancels_anchor(rec.state) && rec.anchor_tx_id is Some {
        StorageModel { anchor_transactions: m.anchor_transactions.remove(rec.anchor_tx_id.unwrap()), ..m }
    } else {
        m
    }
}

/// Coordinates the steps of a transaction.
pub struct TransactionController;

impl TransactionController {
    /// Runs a complete transaction of `amount` from `user` to `agent` at
    /// ledger time `now`: checks eligibility and KYC, creates the remittance
    /// (escrowing the amount), initiates the anchor operation and stores the
    /// record. Transient failures are retried up to `MAX_RETRIES` times; a
    /// failed transaction is rolled back and leaves nothing changed.
    pub fn execute_transaction(
        store: &mut Storage,
        transfers: &mut Vec<TokenTransfer>,
        user: Address,
        agent: Address,
        amount: i128,
        expiry: Option<u64>,
        now: u64,
    ) -> (r: Result<TransactionRecord, ContractError>)
        ensures
            ({
                let rec = TransactionRecordView {
                    user: user@,
                    agent: agent@,
                    amount,
                    remittance_id: None,
                    anchor_tx_id: None,
                    state: TransactionState::Initial,
                    retry_count: 0,
                    timestamp: now,
                };
                match transaction_error(old(store)@, user@, agent@, amount, now) {
                    Some(e) => r == Err::<TransactionRecord, ContractError>(e) && final(store)@ == old(store)@
                        && final(transfers)@ == old(transfers)@,
                    None => {
                        &&& r matches Ok(out) && out@ == (TransactionRecordView {
                            state: TransactionState::Completed,
                            ..executed_record(old(store)@, rec, now)
                        })
                        &&& final(store)@ == executed_model(old(store)@, rec, expiry, now)
                        &&& transfer_views(final(transfers)@) == transfer_views(old(transfers)@).push(deposit(user@, amount))
                    },
                }
            }),
    {
        let mut record = TransactionRecord {
            user,
            agent,
            amount,
            remittance_id: None,
            anchor_tx_id: None,
            state: TransactionState::Initial,
            retry_count: 0,
            timestamp: now,
        };
        match Self::execute_with_retry(store, transfers, &mut record, expiry, now) {
            Ok(_) => {
                record.state = TransactionState::Completed;
                Ok(record)
            },
            Err(e) => {
                let _ = Self::rollback_transaction(store, transfers, &mut record);
                Err(e)
            },
        }
    }

    /// Runs the steps of `record`, trying again after a transient failure,
    /// at most `MAX_RETRIES` more times.
    fn execute_with_retry(
        store: &mut Storage,
        transfers: &mut Vec<TokenTransfer>,
        record: &mut TransactionRecord,
        expiry: Option<u64>,
        now: u64,
    ) -> (r: Result<(), ContractError>)
        requires
            old(record).state == TransactionState::Initial,
        ensures
            match transaction_error(old(store)@, old(record)@.user, old(record)@.agent, old(record)@.amount, now) {
                Some(e) => {
                    &&& r == Err::<(), ContractError>(e)
                    &&& final(store)@ == old(store)@
                    &&& final(transfers)@ == old(transfers)@
                    &&& early_state(final(record)@.state)
                    &&& final(record)@ == (TransactionRecordView {
                        state: final(record)@.state,
                        retry_count: final(record)@.retry_count,
                        ..old(record)@
                    })
                    // A transient failure is tried `MAX_RETRIES` more times, any other failure once.
                    &&& final(record)@.retry_count == (if retryable(e) { MAX_RETRIES } else { 0 })
                },
                None => {
                    let rec = TransactionRecordView { retry_count: 0, ..old(record)@ };
                    &&& r is Ok
                    &&& final(store)@ == executed_model(old(store)@, rec, expiry, now)
                    &&& final(record)@ == executed_record(old(store)@, rec, now)
                    &&& transfer_views(final(transfers)@) == transfer_views(old(transfers)@).push(
                        deposit(old(record)@.user, old(record)@.amount),
                    )
                },
            },
    {
        let ghost outcome = transaction_error(old(store)@, old(record)@.user, old(record)@.agent, old(record)@.amount, now);
        let mut last_error = ContractError::NotInitialized;
        let mut attempt: u32 = 0;
        while attempt <= MAX_RETRIES
            invariant
                attempt <= MAX_RETRIES + 1,
                store@ == old(store)@,
                transfers@ == old(transfers)@,
                early_state(record@.state),
                record@ == (TransactionRecordView { state: record@.state, retry_count: record@.retry_count, ..old(record)@ }),
                outcome == transaction_error(old(store)@, old(record)@.user, old(record)@.agent, old(record)@.amount, now),
                attempt > 0 ==> outcome == Some(last_error) && retryable(last_error) && record@.retry_count
                    == attempt - 1,
            decreases MAX_RETRIES + 1 - attempt,
        {
            record.retry_count = attempt;
            match Self::execute_transaction_steps(store, transfers, record, expiry, now) {
                Ok(_) => {
                    return Ok(());
                },
                Err(e) => {
                    last_error = e;
                    if !Self::is_retryable_error(&e) {
                        return Err(e);
                    }
                    attempt = attempt + 1;
                },
            }
        }
        Err(last_error)
    }

    /// Runs the steps of `record` once.
    fn execute_transaction_steps(
        store: &mut Storage,
        transfers: &mut Vec<TokenTransfer>,
        record: &mut TransactionRecord,
        expiry: Option<u64>,
        now: u64,
    ) -> (r: Result<(), ContractError>)
        requires
            early_state(old(record).state),
        ensures
            match transaction_error(old(store)@, old(record)@.user, old(record)@.agent, old(record)@.amount, now) {
                Some(e) => {
                    &&& r == Err::<(), ContractError>(e)
                    &&& final(store)@ == old(store)@
                    &&& final(transfers)@ == old(transfers)@
                    &&& early_state(final(record)@.state)
                    &&& final(record)@ == (TransactionRecordView { state: final(record)@.state, ..old(record)@ })
                },
                None => {
                    &&& r is Ok
                    &&& final(store)@ == executed_model(old(store)@, old(record)@, expiry, now)
                    &&& final(record)@ == executed_record(old(store)@, old(record)@, now)
                    &&& transfer_views(final(transfers)@) == transfer_views(old(transfers)@).push(
                        deposit(old(record)@.user, old(record)@.amount),
                    )
                },
            },
    {
        Self::validate_eligibility(store, &record.user)?;
        record.state = TransactionState::EligibilityValidated;
        Self::confirm_kyc(store, &record.user, now)?;
        record.state = TransactionState::KycConfirmed;
        let remittance_id = Self::call_contract(store, transfers, &record.user, &record.agent, record.amount, expiry)?;
        record.remittance_id = Some(remittance_id);
        record.state = TransactionState::ContractCalled { remittance_id };
        let anchor_tx_id = Self::initiate_anchor_operation(store, remittance_id, record.amount, now)?;
        record.anchor_tx_id = Some(anchor_tx_id);
        record.state = TransactionState::AnchorInitiated { anchor_tx_id };
        Self::store_transaction_record(store, record)?;
        record.state = TransactionState::RecordStored;
        Ok(())
    }

    /// Refuses a blacklisted user.
    fn validate_eligibility(store: &Storage, user: &Address) -> (r: Result<(), ContractError>)
        ensures
            r == (if flag_set(store@.blacklisted, user@) {
                Err(ContractError::UserBlacklisted)
            } else {
                Ok(())
            }),
    {
        if is_user_blacklisted(store, user) {
            return Err(ContractError::UserBlacklisted);
        }
        Ok(())
    }

    /// Requires `user`'s KYC to be approved and unexpired at time `now`.
    fn confirm_kyc(store: &Storage, user: &Address, now: u64) -> (r: Result<(), ContractError>)
        ensures
            r == (if !flag_set(store@.kyc_approved, user@) {
                Err(ContractError::KycNotApproved)
            } else if kyc_expired(store@, user@, now) {
                Err(ContractError::KycExpired)
            } else {
                Ok(())
            }),
    {
        if !is_kyc_approved(store, user) {
            return Err(ContractError::KycNotApproved);
        }
        if is_kyc_expired(store, user, now) {
            return Err(ContractError::KycExpired);
        }
        Ok(())
    }

    /// Creates the remittance of the transaction, escrowing its amount.
    fn call_contract(
        store: &mut Storage,
        transfers: &mut Vec<TokenTransfer>,
        sender: &Address,
        agent: &Address,
        amount: i128,
        expiry: Option<u64>,
    ) -> (r: Result<u64, ContractError>)
        ensures
            match create_remittance_error(old(store)@, agent@, amount) {
                Some(e) => r == Err::<u64, ContractError>(e) && final(store)@ == old(store)@
                    && final(transfers)@ == old(transfers)@,
                None => {
                    let id = (old(store)@.remittance_counter.unwrap() + 1) as u64;
                    &&& r == Ok::<u64, ContractError>(id)
                    &&& final(store)@ == (StorageModel {
                        remittances: old(store)@.remittances.insert(id, RemittanceView {
                            id,
                            sender: sender@,
                            agent: agent@,
                            amount,
                            fee: remittance_fee(amount, old(store)@.platform_fee_bps.unwrap()) as i128,
                            status: RemittanceStatus::Pending,
                            expiry,
                        }),
                        remittance_counter: Some(id),
                        ..old(store)@
                    })
                    &&& transfer_views(final(transfers)@) == transfer_views(old(transfers)@).push(deposit(sender@, amount))
                },
            },
    {
        SwiftRemitContract::create_remittance(store, transfers, sender.duplicate(), agent.duplicate(), amount, expiry)
    }

    /// Maps a new anchor operation to remittance `remittance_id` and returns its id.
    fn initiate_anchor_operation(store: &mut Storage, remittance_id: u64, amount: i128, now: u64) -> (r: Result<u64, ContractError>)
        ensures
            r == Ok::<u64, ContractError>(anchor_tx_id_of(remittance_id, now)),
            final(store)@ == (StorageModel {
                anchor_transactions: old(store)@.anchor_transactions.insert(anchor_tx_id_of(remittance_id, now), remittance_id),
                ..old(store)@
            }),
    {
        let anchor_tx_id = Self::generate_anchor_tx_id(remittance_id, now);
        set_anchor_transaction(store, anchor_tx_id, remittance_id)?;
        Ok(anchor_tx_id)
    }

    /// Stores `record` under its remittance id, if it has one.
    fn store_transaction_record(store: &mut Storage, record: &TransactionRecord) -> (r: Result<(), ContractError>)
        ensures
            r is Ok,
            final(store)@ == (match record.remittance_id {
                Some(id) => StorageModel {
                    transaction_records: old(store)@.transaction_records.insert(id, record@),
                    ..old(store)@
                },
                None => old(store)@,
            }),
    {
        if let Some(remittance_id) = record.remittance_id {
            set_transaction_record(store, remittance_id, record)?;
        }
        Ok(())
    }

    /// Undoes what the steps of `record` did so far: cancels its anchor
    /// operation and reverses its remittance, then marks it `RolledBack`.
    fn rollback_transaction(store: &mut Storage, transfers: &mut Vec<TokenTransfer>, record: &mut TransactionRecord) -> (r: Result<(), ContractError>)
        ensures
            ({
                let rec = old(record)@;
                let m1 = anchor_cancelled_in(old(store)@, rec);
                if !reverses_remittance(rec.state) {
                    &&& r is Ok
                    &&& final(store)@ == old(store)@
                    &&& final(transfers)@ == old(transfers)@
                    &&& final(record)@ == (TransactionRecordView { state: TransactionState::RolledBack, ..rec })
                } else {
                    match reversal_error(m1, rec.remittance_id) {
                        Some(e) => r == Err::<(), ContractError>(e) && final(store)@ == m1
                            && final(transfers)@ == old(transfers)@ && final(record)@ == rec,
                        None => {
                            &&& r is Ok
                            &&& final(record)@ == (TransactionRecordView { state: TransactionState::RolledBack, ..rec })
                            &&& if reversal_refunds(m1, rec.remittance_id) {
                                let id = rec.remittance_id.unwrap();
                                &&& final(store)@ == cancelled_in(m1, id)
                                &&& transfer_views(final(transfers)@) == transfer_views(old(transfers)@).push(
                                    payout(m1.remittances[id].sender, m1.remittances[id].amount),
                                )
                            } else {
                                final(store)@ == m1 && final(transfers)@ == old(transfers)@
                            }
                        },
                    }
                }
            }),
    {
        match record.state {
            TransactionState::RecordStored | TransactionState::AnchorInitiated { .. } => {
                if let Some(anchor_tx_id) = record.anchor_tx_id {
                    let _ = Self::cancel_anchor_operation(store, anchor_tx_id);
                }
                Self::rollback_contract_call(store, transfers, record)?;
            },
            TransactionState::ContractCalled { .. } => {
                Self::rollback_contract_call(store, transfers, record)?;
            },
            _ => {},
        }
        record.state = TransactionState::RolledBack;
        Ok(())
    }

    /// Reverses the remittance of `record`: a still pending remittance is
    /// refunded to its sender and cancelled.
    fn rollback_contract_call(store: &mut Storage, transfers: &mut Vec<TokenTransfer>, record: &TransactionRecord) -> (r: Result<(), ContractError>)
        ensures
            match reversal_error(old(store)@, record.remittance_id) {
                Some(e) => r == Err::<(), ContractError>(e) && final(store)@ == old(store)@
                    && final(transfers)@ == old(transfers)@,
                None => {
                    &&& r is Ok
                    &&& if reversal_refunds(old(store)@, record.remittance_id) {
                        let id = record.remittance_id.unwrap();
                        &&& final(store)@ == cancelled_in(old(store)@, id)
                        &&& transfer_views(final(transfers)@) == transfer_views(old(transfers)@).push(
                            payout(old(store)@.remittances[id].sender, old(store)@.remittances[id].amount),
                        )
                    } else {
                        final(store)@ == old(store)@ && final(transfers)@ == old(transfers)@
                    }
                },
            },
    {
        if let Some(remittance_id) = record.remittance_id {
            let remittance = get_remittance(store, remittance_id)?;
            if remittance.status == RemittanceStatus::Pending {
                let _usdc_token = get_usdc_token(store)?;
                let refund_to = remittance.sender.duplicate();
                let refund = remittance.amount;
                let mut cancelled = remittance;
                cancelled.status = RemittanceStatus::Cancelled;
                set_remittance(store, remittance_id, &cancelled);
                let t = TokenTransfer { direction: TransferDirection::OutOfEscrow, party: refund_to, amount: refund };
                proof {
                    lemma_push_transfer(transfers@, t);
                }
                transfers.push(t);
            }
        }
        Ok(())
    }

    /// Cancels anchor operation `anchor_tx_id` by removing its mapping.
    fn cancel_anchor_operation(store: &mut Storage, anchor_tx_id: u64) -> (r: Result<(), ContractError>)
        ensures
            r is Ok,
            final(store)@ == (StorageModel {
                anchor_transactions: old(store)@.anchor_transactions.remove(anchor_tx_id),
                ..old(store)@
            }),
    {
        remove_anchor_transaction(store, anchor_tx_id)?;
        Ok(())
    }

    /// Whether `error` is transient (`Overflow` or `NotInitialized`).
    pub fn is_retryable_error(error: &ContractError) -> (b: bool)
        ensures
            b == retryable(*error),
    {
        match error {
            ContractError::Overflow => true,
            ContractError::NotInitialized => true,
            _ => false,
        }
    }

    /// The anchor operation id of remittance `remittance_id` at time `now`.
    pub fn generate_anchor_tx_id(remittance_id: u64, now: u64) -> (id: u64)
        ensures
            id == anchor_tx_id_of(remittance_id, now),
    {
        remittance_id.wrapping_mul(ANCHOR_ID_MULTIPLIER).wrapping_add(now)
    }

    /// The stored record of the transaction of remittance `remittance_id`.
    pub fn get_transaction_status(store: &Storage, remittance_id: u64) -> (r: Result<TransactionRecord, ContractError>)
        ensures
            store@.transaction_records.contains_key(remittance_id) <==> r is Ok,
            r matches Ok(x) ==> x@ == store@.transaction_records[remittance_id],
            r is Err ==> r == Err::<TransactionRecord, ContractError>(ContractError::TransactionNotFound),
    {
        get_transaction_record(store, remittance_id)
    }

    /// Runs again the rolled back transaction recorded under
    /// `remittance_id`, from its first step, without expiry.
    pub fn retry_transaction(
        store: &mut Storage,
        transfers: &mut Vec<TokenTransfer>,
        remittance_id: u64,
        now: u64,
    ) -> (r: Result<TransactionRecord, ContractError>)
        ensures
            !old(store)@.transaction_records.contains_key(remittance_id) ==> r
                == Err::<TransactionRecord, ContractError>(ContractError::TransactionNotFound)
                && final(store)@ == old(store)@ && final(transfers)@ == old(transfers)@,
            old(store)@.transaction_records.contains_key(remittance_id) ==> {
                let stored = old(store)@.transaction_records[remittance_id];
                let rec = TransactionRecordView { state: TransactionState::Initial, retry_count: 0, ..stored };
                if stored.state != TransactionState::RolledBack {
                    r == Err::<TransactionRecord, ContractError>(ContractError::InvalidStatus)
                        && final(store)@ == old(store)@ && final(transfers)@ == old(transfers)@
                } else {
                    match transaction_error(old(store)@, stored.user, stored.agent, stored.amount, now) {
                        Some(e) => r == Err::<TransactionRecord, ContractError>(e) && final(store)@ == old(store)@
                            && final(transfers)@ == old(transfers)@,
                        None => {
                            &&& r matches Ok(out) && out@ == (TransactionRecordView {
                                state: TransactionState::Completed,
                                ..executed_record(old(store)@, rec, now)
                            })
                            &&& final(store)@ == executed_model(old(store)@, rec, None, now)
                            &&& transfer_views(final(transfers)@) == transfer_views(old(transfers)@).push(
                                deposit(stored.user, stored.amount),
                            )
                        },
                    }
                }
            },
    {
        let mut record = Self::get_transaction_status(store, remittance_id)?;
        if record.state != TransactionState::RolledBack {
            return Err(ContractError::InvalidStatus);
        }
        record.state = TransactionState::Initial;
        record.retry_count = 0;
        Self::execute_with_retry(store, transfers, &mut record, None, now)?;
        record.state = TransactionState::Completed;
        Ok(record)
    }
}

} // verus!
