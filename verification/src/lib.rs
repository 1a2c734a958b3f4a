//! SwiftRemit: escrow-based USDC remittances with registered payout agents,
//! a basis-point platform fee and a validated remittance state machine.
//!
//! The contract's state lives in [`Storage`]; its operations are the
//! associated functions of [`SwiftRemitContract`] and
//! [`TransactionController`]. Operations that move tokens append the
//! required [`TokenTransfer`]s for their caller to carry out.

#![allow(unused_imports)]

pub mod address_map;
pub mod asset_verification;
pub mod contract;
pub mod error_handler;
pub mod errors;
pub mod escrow;
pub mod fee_strategy;
pub mod hashing;
pub mod health;
pub mod migration;
pub mod rate_limit;
pub mod response;
pub mod storage;
pub mod transaction_controller;
pub mod transitions;
pub mod types;

pub use asset_verification::{
    get_asset_verification, has_asset_verification, set_asset_verification, AssetVerification,
    AssetVerificationKey, VerificationStatus,
};
pub use contract::SwiftRemitContract;
pub use error_handler::{ContractResult, ErrorCategory, ErrorHandler, ErrorResponse, ErrorSeverity};
pub use errors::ContractError;
pub use escrow::{TokenTransfer, TransferDirection};
pub use fee_strategy::FeeStrategy;
pub use hashing::{compute_settlement_id, compute_settlement_id_from_remittance, HASH_SCHEMA_VERSION};
pub use health::{health_check, HealthStatus};
pub use migration::{
    compute_batch_hash, compute_snapshot_hash, export_batch, export_state, import_batch, import_state,
    verify_snapshot, InstanceData, MigrationBatch, MigrationSnapshot, MigrationVerification, PersistentData,
    MAX_MIGRATION_BATCH_SIZE,
};
pub use rate_limit::{
    check_rate_limit, get_rate_limit_config, get_rate_limit_status, init_rate_limit, rate_limit_ttl,
    set_rate_limit_config, RateLimitConfig, RateLimitEntry,
};
pub use response::Response;
pub use storage::Storage;
pub use transaction_controller::{TransactionController, TransactionRecord, TransactionState};
pub use transitions::{get_valid_next_states, is_terminal_status, transition_status, validate_transition};
pub use types::{
    Address, BatchSettlementEntry, BatchSettlementResult, DailyLimit, Remittance, RemittanceStatus,
    SettlementSimulation, TransferRecord,
};
