//! Error conditions of the SwiftRemit contract, each with its numeric code.

use vstd::prelude::*;

verus! {

/// Every failure the contract reports.
///
/// The numeric code of each error is given by [`ContractError::code`].
#[derive(Clone, Copy, Debug, PartialEq, Eq, Structural, PartialOrd, Ord, Hash)]
pub enum ContractError {
    /// `initialize` was called on a contract that already has an admin.
    AlreadyInitialized,
    /// An operation needed configuration that `initialize` has not stored yet.
    NotInitialized,
    /// An amount was zero or negative.
    InvalidAmount,
    /// A fee above 10000 basis points was given.
    InvalidFeeBps,
    /// The agent is not registered.
    AgentNotRegistered,
    /// No remittance is stored under the given id.
    RemittanceNotFound,
    /// The remittance is not in the status the operation needs.
    InvalidStatus,
    /// The state machine refuses the requested transition.
    InvalidStateTransition,
    /// There are no accumulated fees to withdraw.
    NoFeesToWithdraw,
    /// An address failed validation.
    InvalidAddress,
    /// The settlement window of the remittance has passed.
    SettlementExpired,
    /// The remittance has already been settled.
    DuplicateSettlement,
    /// No asset verification record is stored for the asset.
    AssetNotFound,
    /// A reputation score outside 0..=100 was given.
    InvalidReputationScore,
    /// The asset has been flagged as suspicious.
    SuspiciousAsset,
    /// The contract is paused.
    ContractPaused,
    /// The user is blacklisted.
    UserBlacklisted,
    /// The user's KYC is not approved.
    KycNotApproved,
    /// The user's KYC approval has expired.
    KycExpired,
    /// No transaction record is stored for the given id.
    TransactionNotFound,
    /// An anchor withdrawal or deposit failed.
    AnchorTransactionFailed,
    /// The caller exceeded the request rate limit.
    RateLimitExceeded,
    /// The caller is not allowed to perform the operation.
    Unauthorized,
    /// The admin is already registered.
    AdminAlreadyExists,
    /// The admin is not registered.
    AdminNotFound,
    /// The last admin cannot be removed.
    CannotRemoveLastAdmin,
    /// The token is not whitelisted.
    TokenNotWhitelisted,
    /// The token is already whitelisted.
    TokenAlreadyWhitelisted,
    /// A migration snapshot or batch does not match its hash.
    InvalidMigrationHash,
    /// A migration is already in progress.
    MigrationInProgress,
    /// A migration batch is out of order or invalid.
    InvalidMigrationBatch,
    /// The user's daily send limit is exceeded.
    DailySendLimitExceeded,
    /// An arithmetic operation overflowed.
    Overflow,
    /// An arithmetic operation underflowed.
    Underflow,
    /// Net settlement failed to preserve amounts or fees.
    NetSettlementValidationFailed,
    /// The settlement counter would overflow.
    SettlementCounterOverflow,
    /// A batch size is zero or too large.
    InvalidBatchSize,
    /// Stored data is corrupted or inconsistent.
    DataCorruption,
    /// An index is outside a collection.
    IndexOutOfBounds,
    /// A collection that needs elements is empty.
    EmptyCollection,
    /// A key is missing from a map.
    KeyNotFound,
    /// A string conversion failed.
    StringConversionFailed,
    /// A symbol is invalid or malformed.
    InvalidSymbol,
    /// No escrow is stored under the given id.
    EscrowNotFound,
    /// The escrow is not in the status the operation needs.
    InvalidEscrowStatus,
}

/// The numeric code under which the contract reports `e`.
pub open spec fn error_code(e: ContractError) -> u32 {
    match e {
        ContractError::AlreadyInitialized => 1,
        ContractError::NotInitialized => 2,
        ContractError::InvalidAmount => 3,
        ContractError::InvalidFeeBps => 4,
        ContractError::AgentNotRegistered => 5,
        ContractError::RemittanceNotFound => 6,
        ContractError::InvalidStatus => 7,
        ContractError::InvalidStateTransition => 8,
        ContractError::NoFeesToWithdraw => 9,
        ContractError::InvalidAddress => 10,
        ContractError::SettlementExpired => 11,
        ContractError::DuplicateSettlement => 12,
        ContractError::AssetNotFound => 13,
        ContractError::InvalidReputationScore => 14,
        ContractError::SuspiciousAsset => 15,
        ContractError::ContractPaused => 16,
        ContractError::UserBlacklisted => 41,
        ContractError::KycNotApproved => 42,
        ContractError::KycExpired => 43,
        ContractError::TransactionNotFound => 44,
        ContractError::AnchorTransactionFailed => 45,
        ContractError::RateLimitExceeded => 17,
        ContractError::Unauthorized => 18,
        ContractError::AdminAlreadyExists => 19,
        ContractError::AdminNotFound => 20,
        ContractError::CannotRemoveLastAdmin => 21,
        ContractError::TokenNotWhitelisted => 22,
        ContractError::TokenAlreadyWhitelisted => 23,
        ContractError::InvalidMigrationHash => 24,
        ContractError::MigrationInProgress => 25,
        ContractError::InvalidMigrationBatch => 26,
        ContractError::DailySendLimitExceeded => 27,
        ContractError::Overflow => 28,
        ContractError::Underflow => 29,
        ContractError::NetSettlementValidationFailed => 30,
        ContractError::SettlementCounterOverflow => 31,
        ContractError::InvalidBatchSize => 32,
        ContractError::DataCorruption => 33,
        ContractError::IndexOutOfBounds => 34,
        ContractError::EmptyCollection => 35,
        ContractError::KeyNotFound => 36,
        ContractError::StringConversionFailed => 37,
        ContractError::InvalidSymbol => 38,
        ContractError::EscrowNotFound => 39,
        ContractError::InvalidEscrowStatus => 40,
    }
}

/// The error reported under `code`, if any.
pub open spec fn error_of_code(code: u32) -> Option<ContractError> {
    match code {
        1 => Some(ContractError::AlreadyInitialized),
        2 => Some(ContractError::NotInitialized),
        3 => Some(ContractError::InvalidAmount),
        4 => Some(ContractError::InvalidFeeBps),
        5 => Some(ContractError::AgentNotRegistered),
        6 => Some(ContractError::RemittanceNotFound),
        7 => Some(ContractError::InvalidStatus),
        8 => Some(ContractError::InvalidStateTransition),
        9 => Some(ContractError::NoFeesToWithdraw),
        10 => Some(ContractError::InvalidAddress),
        11 => Some(ContractError::SettlementExpired),
        12 => Some(ContractError::DuplicateSettlement),
        13 => Some(ContractError::AssetNotFound),
        14 => Some(ContractError::InvalidReputationScore),
        15 => Some(ContractError::SuspiciousAsset),
        16 => Some(ContractError::ContractPaused),
        17 => Some(ContractError::RateLimitExceeded),
        18 => Some(ContractError::Unauthorized),
        19 => Some(ContractError::AdminAlreadyExists),
        20 => Some(ContractError::AdminNotFound),
        21 => Some(ContractError::CannotRemoveLastAdmin),
        22 => Some(ContractError::TokenNotWhitelisted),
        23 => Some(ContractError::TokenAlreadyWhitelisted),
        24 => Some(ContractError::InvalidMigrationHash),
        25 => Some(ContractError::MigrationInProgress),
        26 => Some(ContractError::InvalidMigrationBatch),
        27 => Some(ContractError::DailySendLimitExceeded),
        28 => Some(ContractError::Overflow),
        29 => Some(ContractError::Underflow),
        30 => Some(ContractError::NetSettlementValidationFailed),
        31 => Some(ContractError::SettlementCounterOverflow),
        32 => Some(ContractError::InvalidBatchSize),
        33 => Some(ContractError::DataCorruption),
        34 => Some(ContractError::IndexOutOfBounds),
        35 => Some(ContractError::EmptyCollection),
        36 => Some(ContractError::KeyNotFound),
        37 => Some(ContractError::StringConversionFailed),
        38 => Some(ContractError::InvalidSymbol),
        39 => Some(ContractError::EscrowNotFound),
        40 => Some(ContractError::InvalidEscrowStatus),
        41 => Some(ContractError::UserBlacklisted),
        42 => Some(ContractError::KycNotApproved),
        43 => Some(ContractError::KycExpired),
        44 => Some(ContractError::TransactionNotFound),
        45 => Some(ContractError::AnchorTransactionFailed),
        _ => None,
    }
}

/// Every error has a code of its own: the code determines the error.
pub proof fn lemma_error_codes_unique(e1: ContractError, e2: ContractError)
    ensures
        error_of_code(error_code(e1)) == Some(e1),
        error_code(e1) == error_code(e2) ==> e1 == e2,
{
    assert(error_of_code(error_code(e2)) == Some(e2));
}

impl ContractError {
    /// The numeric code under which the contract reports this error.
    pub fn code(&self) -> (c: u32)
        ensures
            c == error_code(*self),
    {
        match self {
            ContractError::AlreadyInitialized => 1,
            ContractError::NotInitialized => 2,
            ContractError::InvalidAmount => 3,
            ContractError::InvalidFeeBps => 4,
            ContractError::AgentNotRegistered => 5,
            ContractError::RemittanceNotFound => 6,
            ContractError::InvalidStatus => 7,
            ContractError::InvalidStateTransition => 8,
            ContractError::NoFeesToWithdraw => 9,
            ContractError::InvalidAddress => 10,
            ContractError::SettlementExpired => 11,
            ContractError::DuplicateSettlement => 12,
            ContractError::AssetNotFound => 13,
            ContractError::InvalidReputationScore => 14,
            ContractError::SuspiciousAsset => 15,
            ContractError::ContractPaused => 16,
            ContractError::UserBlacklisted => 41,
            ContractError::KycNotApproved => 42,
            ContractError::KycExpired => 43,
            ContractError::TransactionNotFound => 44,
            ContractError::AnchorTransactionFailed => 45,
            ContractError::RateLimitExceeded => 17,
            ContractError::Unauthorized => 18,
            ContractError::AdminAlreadyExists => 19,
            ContractError::AdminNotFound => 20,
            ContractError::CannotRemoveLastAdmin => 21,
            ContractError::TokenNotWhitelisted => 22,
            ContractError::TokenAlreadyWhitelisted => 23,
            ContractError::InvalidMigrationHash => 24,
            ContractError::MigrationInProgress => 25,
            ContractError::InvalidMigrationBatch => 26,
            ContractError::DailySendLimitExceeded => 27,
            ContractError::Overflow => 28,
            ContractError::Underflow => 29,
            ContractError::NetSettlementValidationFailed => 30,
            ContractError::SettlementCounterOverflow => 31,
            ContractError::InvalidBatchSize => 32,
            ContractError::DataCorruption => 33,
            ContractError::IndexOutOfBounds => 34,
            ContractError::EmptyCollection => 35,
            ContractError::KeyNotFound => 36,
            ContractError::StringConversionFailed => 37,
            ContractError::InvalidSymbol => 38,
            ContractError::EscrowNotFound => 39,
            ContractError::InvalidEscrowStatus => 40,
        }
    }
}

} // verus!
