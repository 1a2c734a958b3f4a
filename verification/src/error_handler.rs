//! Central mapping of contract errors to client-facing responses: a stable
//! code, a message that reveals nothing internal, a category and a severity.

use vstd::prelude::*;

use crate::errors::{error_code, ContractError};

verus! {

/// How serious an error is, for logging and alerting.
#[derive(Clone, Copy, Debug, PartialEq, Eq, Structural)]
pub enum ErrorSeverity {
    /// Expected errors (validation failures, user errors).
    Low,
    /// Unexpected but recoverable errors.
    Medium,
    /// Critical errors that should raise alerts.
    High,
}

/// The kind of an error.
#[derive(Clone, Copy, Debug, PartialEq, Eq, Structural)]
pub enum ErrorCategory {
    /// Invalid input.
    Validation,
    /// Permission denied.
    Authorization,
    /// Invalid state for the operation.
    State,
    /// Missing or already existing resource.
    Resource,
    /// Overflow and internal errors.
    System,
}

/// Structured error response for clients.
#[derive(Clone, Debug, PartialEq, Eq)]
pub struct ErrorResponse {
    /// Response code of the error.
    pub code: u32,
    /// Message safe to show to clients.
    pub message: String,
    /// Category.
    pub category: ErrorCategory,
    /// Severity.
    pub severity: ErrorSeverity,
}

/// Result of a contract operation.
pub type ContractResult<T> = Result<T, ContractError>;

/// Response code (the error's own code), message, category and severity of each error.
pub open spec fn error_details(error: ContractError) -> (u32, Seq<char>, ErrorCategory, ErrorSeverity) {
    match error {
        ContractError::AlreadyInitialized => (1, "Contract already initialized"@, ErrorCategory::State, ErrorSeverity::Low),
        ContractError::NotInitialized => (2, "Contract not initialized"@, ErrorCategory::State, ErrorSeverity::Medium),
        ContractError::InvalidAmount => (3, "Amount must be greater than zero"@, ErrorCategory::Validation, ErrorSeverity::Low),
        ContractError::InvalidFeeBps => (4, "Fee must be between 0 and 10000 basis points"@, ErrorCategory::Validation, ErrorSeverity::Low),
        ContractError::AgentNotRegistered => (5, "Agent is not registered"@, ErrorCategory::Resource, ErrorSeverity::Low),
        ContractError::RemittanceNotFound => (6, "Remittance not found"@, ErrorCategory::Resource, ErrorSeverity::Low),
        ContractError::InvalidStatus => (7, "Invalid remittance status for this operation"@, ErrorCategory::State, ErrorSeverity::Low),
        ContractError::InvalidStateTransition => (8, "Invalid state transition attempted"@, ErrorCategory::State, ErrorSeverity::Low),
        ContractError::NoFeesToWithdraw => (9, "No fees available to withdraw"@, ErrorCategory::State, ErrorSeverity::Low),
        ContractError::InvalidAddress => (10, "Invalid address format"@, ErrorCategory::Validation, ErrorSeverity::Low),
        ContractError::SettlementExpired => (11, "Settlement window has expired"@, ErrorCategory::State, ErrorSeverity::Low),
        ContractError::DuplicateSettlement => (12, "Settlement already executed"@, ErrorCategory::State, ErrorSeverity::Medium),
        ContractError::ContractPaused => (16, "Contract is paused"@, ErrorCategory::State, ErrorSeverity::Low),
        ContractError::RateLimitExceeded => (17, "Rate limit exceeded, please wait"@, ErrorCategory::State, ErrorSeverity::Low),
        ContractError::Unauthorized => (18, "Unauthorized: admin access required"@, ErrorCategory::Authorization, ErrorSeverity::Medium),
        ContractError::AdminAlreadyExists => (19, "Admin already exists"@, ErrorCategory::Resource, ErrorSeverity::Low),
        ContractError::AdminNotFound => (20, "Admin not found"@, ErrorCategory::Resource, ErrorSeverity::Low),
        ContractError::CannotRemoveLastAdmin => (21, "Cannot remove the last admin"@, ErrorCategory::State, ErrorSeverity::Low),
        ContractError::TokenNotWhitelisted => (22, "Token is not whitelisted"@, ErrorCategory::Resource, ErrorSeverity::Low),
        ContractError::TokenAlreadyWhitelisted => (23, "Token is already whitelisted"@, ErrorCategory::Resource, ErrorSeverity::Low),
        ContractError::InvalidMigrationHash => (24, "Migration hash verification failed"@, ErrorCategory::System, ErrorSeverity::High),
        ContractError::MigrationInProgress => (25, "Migration already in progress"@, ErrorCategory::State, ErrorSeverity::Low),
        ContractError::InvalidMigrationBatch => (26, "Migration batch is invalid"@, ErrorCategory::Validation, ErrorSeverity::Low),
        ContractError::DailySendLimitExceeded => (27, "Daily send limit exceeded"@, ErrorCategory::State, ErrorSeverity::Low),
        ContractError::Overflow => (28, "Arithmetic overflow occurred"@, ErrorCategory::System, ErrorSeverity::High),
        ContractError::Underflow => (29, "Arithmetic underflow occurred"@, ErrorCategory::System, ErrorSeverity::High),
        ContractError::NetSettlementValidationFailed => (30, "Net settlement validation failed"@, ErrorCategory::System, ErrorSeverity::High),
        ContractError::SettlementCounterOverflow => (31, "Settlement counter overflow"@, ErrorCategory::System, ErrorSeverity::High),
        ContractError::InvalidBatchSize => (32, "Invalid batch size"@, ErrorCategory::Validation, ErrorSeverity::Low),
        ContractError::DataCorruption => (33, "Data corruption detected"@, ErrorCategory::System, ErrorSeverity::High),
        ContractError::IndexOutOfBounds => (34, "Index out of bounds"@, ErrorCategory::Validation, ErrorSeverity::Low),
        ContractError::EmptyCollection => (35, "Collection is empty"@, ErrorCategory::Validation, ErrorSeverity::Low),
        ContractError::KeyNotFound => (36, "Key not found in map"@, ErrorCategory::Resource, ErrorSeverity::Low),
        ContractError::StringConversionFailed => (37, "String conversion failed"@, ErrorCategory::Validation, ErrorSeverity::Low),
        ContractError::InvalidSymbol => (38, "Symbol is invalid or malformed"@, ErrorCategory::Validation, ErrorSeverity::Low),
        ContractError::EscrowNotFound => (39, "Escrow not found"@, ErrorCategory::Resource, ErrorSeverity::Medium),
        ContractError::InvalidEscrowStatus => (40, "Invalid escrow status"@, ErrorCategory::Validation, ErrorSeverity::Medium),
        ContractError::AssetNotFound => (13, "Asset verification record not found"@, ErrorCategory::Resource, ErrorSeverity::Low),
        ContractError::InvalidReputationScore => (14, "Reputation score must be between 0 and 100"@, ErrorCategory::Validation, ErrorSeverity::Low),
        ContractError::SuspiciousAsset => (15, "Asset has been flagged as suspicious"@, ErrorCategory::State, ErrorSeverity::Medium),
        ContractError::UserBlacklisted => (41, "User is blacklisted"@, ErrorCategory::Authorization, ErrorSeverity::Medium),
        ContractError::KycNotApproved => (42, "User KYC is not approved"@, ErrorCategory::Authorization, ErrorSeverity::Low),
        ContractError::KycExpired => (43, "User KYC has expired"@, ErrorCategory::Authorization, ErrorSeverity::Low),
        ContractError::TransactionNotFound => (44, "Transaction record not found"@, ErrorCategory::Resource, ErrorSeverity::Low),
        ContractError::AnchorTransactionFailed => (45, "Anchor transaction failed"@, ErrorCategory::System, ErrorSeverity::High),
    }
}

/// The single place where errors become client responses.
pub struct ErrorHandler;

impl ErrorHandler {
    /// The structured response for `error`.
    pub fn handle_error(error: ContractError) -> (r: ErrorResponse)
        ensures
            (r.code, r.message@, r.category, r.severity) == error_details(error),
            r.code == error_code(error),
    {
        let (code, message, category, severity) = Self::map_error(error);
        ErrorResponse { code, message, category, severity }
    }

    /// Response code, message, category and severity of `error`.
    fn map_error(error: ContractError) -> (r: (u32, String, ErrorCategory, ErrorSeverity))
        ensures
            (r.0, r.1@, r.2, r.3) == error_details(error),
    {
        match error {
            ContractError::AlreadyInitialized => (1, "Contract already initialized".to_owned(), ErrorCategory::State, ErrorSeverity::Low),
            ContractError::NotInitialized => (2, "Contract not initialized".to_owned(), ErrorCategory::State, ErrorSeverity::Medium),
            ContractError::InvalidAmount => (3, "Amount must be greater than zero".to_owned(), ErrorCategory::Validation, ErrorSeverity::Low),
            ContractError::InvalidFeeBps => (4, "Fee must be between 0 and 10000 basis points".to_owned(), ErrorCategory::Validation, ErrorSeverity::Low),
            ContractError::AgentNotRegistered => (5, "Agent is not registered".to_owned(), ErrorCategory::Resource, ErrorSeverity::Low),
            ContractError::RemittanceNotFound => (6, "Remittance not found".to_owned(), ErrorCategory::Resource, ErrorSeverity::Low),
            ContractError::InvalidStatus => (7, "Invalid remittance status for this operation".to_owned(), ErrorCategory::State, ErrorSeverity::Low),
            ContractError::InvalidStateTransition => (8, "Invalid state transition attempted".to_owned(), ErrorCategory::State, ErrorSeverity::Low),
            ContractError::NoFeesToWithdraw => (9, "No fees available to withdraw".to_owned(), ErrorCategory::State, ErrorSeverity::Low),
            ContractError::InvalidAddress => (10, "Invalid address format".to_owned(), ErrorCategory::Validation, ErrorSeverity::Low),
            ContractError::SettlementExpired => (11, "Settlement window has expired".to_owned(), ErrorCategory::State, ErrorSeverity::Low),
            ContractError::DuplicateSettlement => (12, "Settlement already executed".to_owned(), ErrorCategory::State, ErrorSeverity::Medium),
            ContractError::ContractPaused => (16, "Contract is paused".to_owned(), ErrorCategory::State, ErrorSeverity::Low),
            ContractError::RateLimitExceeded => (17, "Rate limit exceeded, please wait".to_owned(), ErrorCategory::State, ErrorSeverity::Low),
            ContractError::Unauthorized => (18, "Unauthorized: admin access required".to_owned(), ErrorCategory::Authorization, ErrorSeverity::Medium),
            ContractError::AdminAlreadyExists => (19, "Admin already exists".to_owned(), ErrorCategory::Resource, ErrorSeverity::Low),
            ContractError::AdminNotFound => (20, "Admin not found".to_owned(), ErrorCategory::Resource, ErrorSeverity::Low),
            ContractError::CannotRemoveLastAdmin => (21, "Cannot remove the last admin".to_owned(), ErrorCategory::State, ErrorSeverity::Low),
            ContractError::TokenNotWhitelisted => (22, "Token is not whitelisted".to_owned(), ErrorCategory::Resource, ErrorSeverity::Low),
            ContractError::TokenAlreadyWhitelisted => (23, "Token is already whitelisted".to_owned(), ErrorCategory::Resource, ErrorSeverity::Low),
            ContractError::InvalidMigrationHash => (24, "Migration hash verification failed".to_owned(), ErrorCategory::System, ErrorSeverity::High),
            ContractError::MigrationInProgress => (25, "Migration already in progress".to_owned(), ErrorCategory::State, ErrorSeverity::Low),
            ContractError::InvalidMigrationBatch => (26, "Migration batch is invalid".to_owned(), ErrorCategory::Validation, ErrorSeverity::Low),
            ContractError::DailySendLimitExceeded => (27, "Daily send limit exceeded".to_owned(), ErrorCategory::State, ErrorSeverity::Low),
            ContractError::Overflow => (28, "Arithmetic overflow occurred".to_owned(), ErrorCategory::System, ErrorSeverity::High),
            ContractError::Underflow => (29, "Arithmetic underflow occurred".to_owned(), ErrorCategory::System, ErrorSeverity::High),
            ContractError::NetSettlementValidationFailed => (30, "Net settlement validation failed".to_owned(), ErrorCategory::System, ErrorSeverity::High),
            ContractError::SettlementCounterOverflow => (31, "Settlement counter overflow".to_owned(), ErrorCategory::System, ErrorSeverity::High),
            ContractError::InvalidBatchSize => (32, "Invalid batch size".to_owned(), ErrorCategory::Validation, ErrorSeverity::Low),
            ContractError::DataCorruption => (33, "Data corruption detected".to_owned(), ErrorCategory::System, ErrorSeverity::High),
            ContractError::IndexOutOfBounds => (34, "Index out of bounds".to_owned(), ErrorCategory::Validation, ErrorSeverity::Low),
            ContractError::EmptyCollection => (35, "Collection is empty".to_owned(), ErrorCategory::Validation, ErrorSeverity::Low),
            ContractError::KeyNotFound => (36, "Key not found in map".to_owned(), ErrorCategory::Resource, ErrorSeverity::Low),
            ContractError::StringConversionFailed => (37, "String conversion failed".to_owned(), ErrorCategory::Validation, ErrorSeverity::Low),
            ContractError::InvalidSymbol => (38, "Symbol is invalid or malformed".to_owned(), ErrorCategory::Validation, ErrorSeverity::Low),
            ContractError::EscrowNotFound => (39, "Escrow not found".to_owned(), ErrorCategory::Resource, ErrorSeverity::Medium),
            ContractError::InvalidEscrowStatus => (40, "Invalid escrow status".to_owned(), ErrorCategory::Validation, ErrorSeverity::Medium),
            ContractError::AssetNotFound => (13, "Asset verification record not found".to_owned(), ErrorCategory::Resource, ErrorSeverity::Low),
            ContractError::InvalidReputationScore => (14, "Reputation score must be between 0 and 100".to_owned(), ErrorCategory::Validation, ErrorSeverity::Low),
            ContractError::SuspiciousAsset => (15, "Asset has been flagged as suspicious".to_owned(), ErrorCategory::State, ErrorSeverity::Medium),
            ContractError::UserBlacklisted => (41, "User is blacklisted".to_owned(), ErrorCategory::Authorization, ErrorSeverity::Medium),
            ContractError::KycNotApproved => (42, "User KYC is not approved".to_owned(), ErrorCategory::Authorization, ErrorSeverity::Low),
            ContractError::KycExpired => (43, "User KYC has expired".to_owned(), ErrorCategory::Authorization, ErrorSeverity::Low),
            ContractError::TransactionNotFound => (44, "Transaction record not found".to_owned(), ErrorCategory::Resource, ErrorSeverity::Low),
            ContractError::AnchorTransactionFailed => (45, "Anchor transaction failed".to_owned(), ErrorCategory::System, ErrorSeverity::High),
        }
    }
}

} // verus!
