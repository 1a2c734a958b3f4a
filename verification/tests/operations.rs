use swiftremit::{
    check_rate_limit, get_rate_limit_config, get_rate_limit_status, health_check, init_rate_limit, rate_limit_ttl,
    set_rate_limit_config, storage, Address, ContractError, ErrorCategory, ErrorHandler, ErrorSeverity, FeeStrategy,
    HealthStatus, RateLimitConfig, RemittanceStatus, Response, Storage, SwiftRemitContract, TokenTransfer,
    TransactionController, TransactionRecord, TransactionState, TransferDirection,
};

fn addr(name: &str) -> Address {
    Address::new(name.as_bytes().to_vec())
}

// ---------------------------------------------------------------------------
// Health
// ---------------------------------------------------------------------------

#[test]
fn test_health_status_structure() {
    let health = health_check(1_700_000_000, false);
    assert!(health.operational);
    assert_eq!(health.initialized, false);
    assert!(health.timestamp > 0);
}

#[test]
fn test_health_status_initialized() {
    let health = health_check(0, true);
    assert!(health.operational);
    assert_eq!(health.initialized, true);
}

#[test]
fn test_health_status_timestamp() {
    let health1 = health_check(12345, true);
    let health2 = health_check(12345, true);
    assert_eq!(health1.timestamp, health2.timestamp);
    assert_eq!(health1.timestamp, 12345);
}

#[test]
fn test_health_status_clone() {
    let health1 = health_check(99, true);
    let health2 = health1.clone();
    assert_eq!(health1, health2);
    assert_eq!(health2, HealthStatus { operational: true, timestamp: 99, initialized: true });
}

// ---------------------------------------------------------------------------
// Transaction controller
// ---------------------------------------------------------------------------

/// An initialized contract with a registered agent and a KYC-approved user
/// whose approval runs until time 10_000.
fn ready() -> (Storage, Address, Address) {
    let mut store = Storage::new();
    let user = addr("user");
    let agent = addr("agent");
    SwiftRemitContract::initialize(&mut store, &addr("admin"), &addr("usdc"), 250).unwrap();
    SwiftRemitContract::register_agent(&mut store, &agent).unwrap();
    SwiftRemitContract::set_kyc_approved(&mut store, &user, true, 10_000).unwrap();
    (store, user, agent)
}

#[test]
fn transaction_runs_all_steps() {
    let (mut store, user, agent) = ready();
    let mut transfers: Vec<TokenTransfer> = Vec::new();
    let record =
        TransactionController::execute_transaction(&mut store, &mut transfers, user.clone(), agent.clone(), 1000, None, 500)
            .unwrap();
    assert_eq!(record.state, TransactionState::Completed);
    assert_eq!(record.remittance_id, Some(1));
    assert_eq!(record.anchor_tx_id, Some(1_000_500));
    assert_eq!(record.retry_count, 0);
    assert_eq!(record.timestamp, 500);
    assert_eq!(transfers, vec![TokenTransfer { direction: TransferDirection::IntoEscrow, party: user.clone(), amount: 1000 }]);
    let remittance = SwiftRemitContract::get_remittance(&store, 1).unwrap();
    assert_eq!(remittance.status, RemittanceStatus::Pending);
    assert_eq!(remittance.fee, 25);
    assert_eq!(storage::get_anchor_transaction(&store, 1_000_500), Ok(1));
    let stored = TransactionController::get_transaction_status(&store, 1).unwrap();
    assert_eq!(stored.state, TransactionState::AnchorInitiated { anchor_tx_id: 1_000_500 });
    assert_eq!(stored.user, user);
}

#[test]
fn blacklisted_user_is_refused_and_nothing_changes() {
    let (mut store, user, agent) = ready();
    SwiftRemitContract::set_user_blacklisted(&mut store, &user, true).unwrap();
    let mut transfers = Vec::new();
    let r = TransactionController::execute_transaction(&mut store, &mut transfers, user, agent, 1000, None, 500);
    assert_eq!(r, Err(ContractError::UserBlacklisted));
    assert!(transfers.is_empty());
    assert_eq!(SwiftRemitContract::get_remittance(&store, 1), Err(ContractError::RemittanceNotFound));
    assert_eq!(storage::get_remittance_counter(&store), Ok(0));
}

#[test]
fn user_without_kyc_is_refused() {
    let (mut store, _, agent) = ready();
    let mut transfers = Vec::new();
    let r = TransactionController::execute_transaction(&mut store, &mut transfers, addr("stranger"), agent, 1000, None, 1);
    assert_eq!(r, Err(ContractError::KycNotApproved));
}

#[test]
fn expired_kyc_is_refused() {
    let (mut store, user, agent) = ready();
    let mut transfers = Vec::new();
    let r = TransactionController::execute_transaction(&mut store, &mut transfers, user.clone(), agent.clone(), 1000, None, 10_001);
    assert_eq!(r, Err(ContractError::KycExpired));
    assert!(SwiftRemitContract::is_kyc_approved(&store, &user, 10_000));
    assert!(!SwiftRemitContract::is_kyc_approved(&store, &user, 10_001));
}

#[test]
fn transaction_to_unregistered_agent_is_rolled_back() {
    let (mut store, user, _) = ready();
    let mut transfers = Vec::new();
    let r = TransactionController::execute_transaction(&mut store, &mut transfers, user, addr("nobody"), 1000, None, 1);
    assert_eq!(r, Err(ContractError::AgentNotRegistered));
    assert!(transfers.is_empty());
    assert_eq!(TransactionController::get_transaction_status(&store, 1), Err(ContractError::TransactionNotFound));
}

#[test]
fn transaction_of_zero_is_refused() {
    let (mut store, user, agent) = ready();
    let mut transfers = Vec::new();
    let r = TransactionController::execute_transaction(&mut store, &mut transfers, user, agent, 0, None, 1);
    assert_eq!(r, Err(ContractError::InvalidAmount));
}

#[test]
fn transaction_on_uninitialized_contract_fails_after_retries() {
    let mut store = Storage::new();
    let user = addr("user");
    let agent = addr("agent");
    storage::set_agent_registered(&mut store, &agent, true);
    storage::set_kyc_approved(&mut store, &user, true);
    storage::set_kyc_expiry(&mut store, &user, 100);
    let mut transfers = Vec::new();
    let r = TransactionController::execute_transaction(&mut store, &mut transfers, user, agent, 1000, None, 1);
    assert_eq!(r, Err(ContractError::NotInitialized));
    assert!(transfers.is_empty());
}

#[test]
fn retry_of_rolled_back_transaction_runs_again() {
    let (mut store, user, agent) = ready();
    let record = TransactionRecord {
        user: user.clone(),
        agent: agent.clone(),
        amount: 2000,
        remittance_id: None,
        anchor_tx_id: None,
        state: TransactionState::RolledBack,
        retry_count: 2,
        timestamp: 10,
    };
    storage::set_transaction_record(&mut store, 7, &record).unwrap();
    let mut transfers = Vec::new();
    let out = TransactionController::retry_transaction(&mut store, &mut transfers, 7, 20).unwrap();
    assert_eq!(out.state, TransactionState::Completed);
    assert_eq!(out.retry_count, 0);
    assert_eq!(out.remittance_id, Some(1));
    assert_eq!(out.anchor_tx_id, Some(1_000_020));
    assert_eq!(out.timestamp, 10);
    assert_eq!(SwiftRemitContract::get_remittance(&store, 1).unwrap().amount, 2000);
    assert_eq!(transfers.len(), 1);
}

#[test]
fn retry_of_unknown_or_live_transaction_is_refused() {
    let (mut store, user, agent) = ready();
    let mut transfers = Vec::new();
    assert_eq!(
        TransactionController::retry_transaction(&mut store, &mut transfers, 9, 1),
        Err(ContractError::TransactionNotFound)
    );
    TransactionController::execute_transaction(&mut store, &mut transfers, user, agent, 1000, None, 5).unwrap();
    assert_eq!(
        TransactionController::retry_transaction(&mut store, &mut transfers, 1, 6),
        Err(ContractError::InvalidStatus)
    );
    assert_eq!(transfers.len(), 1);
}

#[test]
fn retryable_errors_are_the_transient_ones() {
    assert!(TransactionController::is_retryable_error(&ContractError::Overflow));
    assert!(TransactionController::is_retryable_error(&ContractError::NotInitialized));
    assert!(!TransactionController::is_retryable_error(&ContractError::InvalidAmount));
    assert!(!TransactionController::is_retryable_error(&ContractError::UserBlacklisted));
}

#[test]
fn anchor_id_is_id_times_a_million_plus_time() {
    assert_eq!(TransactionController::generate_anchor_tx_id(3, 42), 3_000_042);
    assert_eq!(TransactionController::generate_anchor_tx_id(0, 0), 0);
    assert_eq!(
        TransactionController::generate_anchor_tx_id(u64::MAX, 5),
        u64::MAX.wrapping_mul(1_000_000).wrapping_add(5)
    );
}

// ---------------------------------------------------------------------------
// Rate limiting
// ---------------------------------------------------------------------------

#[test]
fn default_rate_limit_config_is_100_per_minute() {
    let mut store = Storage::new();
    let expected = RateLimitConfig { max_requests: 100, window_seconds: 60, enabled: true };
    assert_eq!(get_rate_limit_config(&store), expected);
    init_rate_limit(&mut store);
    assert_eq!(get_rate_limit_config(&store), expected);
}

#[test]
fn requests_beyond_the_limit_are_refused_until_the_window_ends() {
    let mut store = Storage::new();
    set_rate_limit_config(&mut store, RateLimitConfig { max_requests: 3, window_seconds: 60, enabled: true });
    let user = addr("user");
    for _ in 0..3 {
        assert_eq!(check_rate_limit(&mut store, &user, 1000), Ok(()));
    }
    assert_eq!(check_rate_limit(&mut store, &user, 1030), Err(ContractError::RateLimitExceeded));
    assert_eq!(get_rate_limit_status(&store, &user, 1030), (3, 3, 60));
    assert_eq!(check_rate_limit(&mut store, &addr("other"), 1030), Ok(()));
    assert_eq!(check_rate_limit(&mut store, &user, 1060), Ok(()));
    assert_eq!(get_rate_limit_status(&store, &user, 1060), (1, 3, 60));
    assert_eq!(get_rate_limit_status(&store, &user, 1120), (0, 3, 60));
}

#[test]
fn disabled_rate_limit_records_nothing() {
    let mut store = Storage::new();
    set_rate_limit_config(&mut store, RateLimitConfig { max_requests: 0, window_seconds: 60, enabled: false });
    let user = addr("user");
    for t in 0..10 {
        assert_eq!(check_rate_limit(&mut store, &user, t), Ok(()));
    }
    assert_eq!(get_rate_limit_status(&store, &user, 5), (0, 0, 60));
}

#[test]
fn rate_limit_entry_lives_an_hour_past_its_window() {
    assert_eq!(rate_limit_ttl(&RateLimitConfig { max_requests: 1, window_seconds: 60, enabled: true }), 3660);
    assert_eq!(
        rate_limit_ttl(&RateLimitConfig { max_requests: 1, window_seconds: u64::MAX, enabled: true }),
        u64::MAX as u32
    );
}

// ---------------------------------------------------------------------------
// Error responses
// ---------------------------------------------------------------------------

#[test]
fn error_responses_carry_code_message_category_and_severity() {
    let r = ErrorHandler::handle_error(ContractError::InvalidAmount);
    assert_eq!(r.code, 3);
    assert_eq!(r.message, "Amount must be greater than zero");
    assert_eq!(r.category, ErrorCategory::Validation);
    assert_eq!(r.severity, ErrorSeverity::Low);

    let r = ErrorHandler::handle_error(ContractError::Overflow);
    assert_eq!((r.code, r.category, r.severity), (28, ErrorCategory::System, ErrorSeverity::High));

    let r = ErrorHandler::handle_error(ContractError::Unauthorized);
    assert_eq!((r.code, r.category, r.severity), (18, ErrorCategory::Authorization, ErrorSeverity::Medium));

    let r = ErrorHandler::handle_error(ContractError::UserBlacklisted);
    assert_eq!(r.code, 41);
    assert_eq!(r.message, "User is blacklisted");
}

// ---------------------------------------------------------------------------
// Responses and fee strategies
// ---------------------------------------------------------------------------

#[test]
fn responses_carry_data_or_error_code() {
    let ok = Response::ok(7u64, "req-1".to_string());
    assert!(ok.success);
    assert_eq!(ok.data, Some(7));
    assert_eq!(ok.error, None);
    assert_eq!(ok.request_id, "req-1");
    let err: Response<u64> = Response::err(6, "req-2".to_string());
    assert!(!err.success);
    assert_eq!(err.data, None);
    assert_eq!(err.error, Some(6));
    assert_eq!(err.request_id, "req-2");
}

#[test]
fn fee_strategies_hold_their_parameter() {
    assert_eq!(FeeStrategy::Percentage(250), FeeStrategy::Percentage(250));
    assert_ne!(FeeStrategy::Percentage(250), FeeStrategy::Dynamic(250));
    assert_ne!(FeeStrategy::Flat(100), FeeStrategy::Flat(101));
}

#[test]
fn error_codes_are_distinct_and_responses_carry_them() {
    let errors = [
        ContractError::AssetNotFound,
        ContractError::InvalidReputationScore,
        ContractError::SuspiciousAsset,
        ContractError::ContractPaused,
        ContractError::UserBlacklisted,
        ContractError::KycNotApproved,
        ContractError::KycExpired,
        ContractError::TransactionNotFound,
        ContractError::AnchorTransactionFailed,
        ContractError::RateLimitExceeded,
        ContractError::Unauthorized,
        ContractError::InvalidMigrationHash,
        ContractError::InvalidEscrowStatus,
    ];
    let codes: Vec<u32> = errors.iter().map(|e| e.code()).collect();
    assert_eq!(codes, vec![13, 14, 15, 16, 41, 42, 43, 44, 45, 17, 18, 24, 40]);
    for e in errors {
        assert_eq!(ErrorHandler::handle_error(e).code, e.code());
    }
}
