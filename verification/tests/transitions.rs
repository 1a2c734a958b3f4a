use soroban_sdk::testutils::Address as _;
use soroban_sdk::xdr::ToXdr;
use soroban_sdk::Env;

use swiftremit::{
    get_valid_next_states, is_terminal_status, transition_status, validate_transition, Address, ContractError,
    Remittance, RemittanceStatus,
};

/// A fresh ledger address, in the XDR form the library keys by.
fn generated(env: &Env) -> Address {
    let a = soroban_sdk::Address::generate(env);
    Address::new(a.to_xdr(env).iter().collect())
}

#[test]
fn test_valid_transition_initiated_to_submitted() {
    assert!(validate_transition(&RemittanceStatus::Initiated, &RemittanceStatus::Submitted).is_ok());
}

#[test]
fn test_valid_transition_initiated_to_failed() {
    assert!(validate_transition(&RemittanceStatus::Initiated, &RemittanceStatus::Failed).is_ok());
}

#[test]
fn test_valid_transition_submitted_to_pending_anchor() {
    assert!(validate_transition(&RemittanceStatus::Submitted, &RemittanceStatus::PendingAnchor).is_ok());
}

#[test]
fn test_valid_transition_submitted_to_failed() {
    assert!(validate_transition(&RemittanceStatus::Submitted, &RemittanceStatus::Failed).is_ok());
}

#[test]
fn test_valid_transition_pending_anchor_to_completed() {
    assert!(validate_transition(&RemittanceStatus::PendingAnchor, &RemittanceStatus::Completed).is_ok());
}

#[test]
fn test_valid_transition_pending_anchor_to_failed() {
    assert!(validate_transition(&RemittanceStatus::PendingAnchor, &RemittanceStatus::Failed).is_ok());
}

#[test]
fn test_idempotent_transition_initiated() {
    assert!(validate_transition(&RemittanceStatus::Initiated, &RemittanceStatus::Initiated).is_ok());
}

#[test]
fn test_idempotent_transition_submitted() {
    assert!(validate_transition(&RemittanceStatus::Submitted, &RemittanceStatus::Submitted).is_ok());
}

#[test]
fn test_idempotent_transition_pending_anchor() {
    assert!(validate_transition(&RemittanceStatus::PendingAnchor, &RemittanceStatus::PendingAnchor).is_ok());
}

#[test]
fn test_idempotent_transition_completed() {
    assert!(validate_transition(&RemittanceStatus::Completed, &RemittanceStatus::Completed).is_ok());
}

#[test]
fn test_idempotent_transition_failed() {
    assert!(validate_transition(&RemittanceStatus::Failed, &RemittanceStatus::Failed).is_ok());
}

#[test]
fn test_invalid_transition_initiated_to_pending_anchor() {
    let result = validate_transition(&RemittanceStatus::Initiated, &RemittanceStatus::PendingAnchor);
    assert!(result.is_err());
    assert_eq!(result.unwrap_err(), ContractError::InvalidStateTransition);
}

#[test]
fn test_invalid_transition_initiated_to_completed() {
    let result = validate_transition(&RemittanceStatus::Initiated, &RemittanceStatus::Completed);
    assert!(result.is_err());
    assert_eq!(result.unwrap_err(), ContractError::InvalidStateTransition);
}

#[test]
fn test_invalid_transition_submitted_to_initiated() {
    let result = validate_transition(&RemittanceStatus::Submitted, &RemittanceStatus::Initiated);
    assert!(result.is_err());
    assert_eq!(result.unwrap_err(), ContractError::InvalidStateTransition);
}

#[test]
fn test_invalid_transition_submitted_to_completed() {
    let result = validate_transition(&RemittanceStatus::Submitted, &RemittanceStatus::Completed);
    assert!(result.is_err());
    assert_eq!(result.unwrap_err(), ContractError::InvalidStateTransition);
}

#[test]
fn test_invalid_transition_pending_anchor_to_initiated() {
    let result = validate_transition(&RemittanceStatus::PendingAnchor, &RemittanceStatus::Initiated);
    assert!(result.is_err());
    assert_eq!(result.unwrap_err(), ContractError::InvalidStateTransition);
}

#[test]
fn test_invalid_transition_pending_anchor_to_submitted() {
    let result = validate_transition(&RemittanceStatus::PendingAnchor, &RemittanceStatus::Submitted);
    assert!(result.is_err());
    assert_eq!(result.unwrap_err(), ContractError::InvalidStateTransition);
}

#[test]
fn test_terminal_completed_cannot_transition_to_initiated() {
    let result = validate_transition(&RemittanceStatus::Completed, &RemittanceStatus::Initiated);
    assert!(result.is_err());
    assert_eq!(result.unwrap_err(), ContractError::InvalidStateTransition);
}

#[test]
fn test_terminal_completed_cannot_transition_to_submitted() {
    let result = validate_transition(&RemittanceStatus::Completed, &RemittanceStatus::Submitted);
    assert!(result.is_err());
    assert_eq!(result.unwrap_err(), ContractError::InvalidStateTransition);
}

#[test]
fn test_terminal_completed_cannot_transition_to_pending_anchor() {
    let result = validate_transition(&RemittanceStatus::Completed, &RemittanceStatus::PendingAnchor);
    assert!(result.is_err());
    assert_eq!(result.unwrap_err(), ContractError::InvalidStateTransition);
}

#[test]
fn test_terminal_completed_cannot_transition_to_failed() {
    let result = validate_transition(&RemittanceStatus::Completed, &RemittanceStatus::Failed);
    assert!(result.is_err());
    assert_eq!(result.unwrap_err(), ContractError::InvalidStateTransition);
}

#[test]
fn test_terminal_failed_cannot_transition_to_initiated() {
    let result = validate_transition(&RemittanceStatus::Failed, &RemittanceStatus::Initiated);
    assert!(result.is_err());
    assert_eq!(result.unwrap_err(), ContractError::InvalidStateTransition);
}

#[test]
fn test_terminal_failed_cannot_transition_to_submitted() {
    let result = validate_transition(&RemittanceStatus::Failed, &RemittanceStatus::Submitted);
    assert!(result.is_err());
    assert_eq!(result.unwrap_err(), ContractError::InvalidStateTransition);
}

#[test]
fn test_terminal_failed_cannot_transition_to_pending_anchor() {
    let result = validate_transition(&RemittanceStatus::Failed, &RemittanceStatus::PendingAnchor);
    assert!(result.is_err());
    assert_eq!(result.unwrap_err(), ContractError::InvalidStateTransition);
}

#[test]
fn test_terminal_failed_cannot_transition_to_completed() {
    let result = validate_transition(&RemittanceStatus::Failed, &RemittanceStatus::Completed);
    assert!(result.is_err());
    assert_eq!(result.unwrap_err(), ContractError::InvalidStateTransition);
}

#[test]
fn test_is_terminal_status_completed() {
    assert!(is_terminal_status(&RemittanceStatus::Completed));
}

#[test]
fn test_is_terminal_status_failed() {
    assert!(is_terminal_status(&RemittanceStatus::Failed));
}

#[test]
fn test_is_not_terminal_status_initiated() {
    assert!(!is_terminal_status(&RemittanceStatus::Initiated));
}

#[test]
fn test_is_not_terminal_status_submitted() {
    assert!(!is_terminal_status(&RemittanceStatus::Submitted));
}

#[test]
fn test_is_not_terminal_status_pending_anchor() {
    assert!(!is_terminal_status(&RemittanceStatus::PendingAnchor));
}

#[test]
fn test_valid_next_states_from_initiated() {
    let next_states = get_valid_next_states(&RemittanceStatus::Initiated);
    assert_eq!(next_states.len(), 2);
    assert!(next_states.contains(&RemittanceStatus::Submitted));
    assert!(next_states.contains(&RemittanceStatus::Failed));
}

#[test]
fn test_valid_next_states_from_submitted() {
    let next_states = get_valid_next_states(&RemittanceStatus::Submitted);
    assert_eq!(next_states.len(), 2);
    assert!(next_states.contains(&RemittanceStatus::PendingAnchor));
    assert!(next_states.contains(&RemittanceStatus::Failed));
}

#[test]
fn test_valid_next_states_from_pending_anchor() {
    let next_states = get_valid_next_states(&RemittanceStatus::PendingAnchor);
    assert_eq!(next_states.len(), 2);
    assert!(next_states.contains(&RemittanceStatus::Completed));
    assert!(next_states.contains(&RemittanceStatus::Failed));
}

#[test]
fn test_valid_next_states_from_completed() {
    let next_states = get_valid_next_states(&RemittanceStatus::Completed);
    assert_eq!(next_states.len(), 0);
}

#[test]
fn test_valid_next_states_from_failed() {
    let next_states = get_valid_next_states(&RemittanceStatus::Failed);
    assert_eq!(next_states.len(), 0);
}

fn remittance_in(env: &Env, status: RemittanceStatus) -> Remittance {
    Remittance {
        id: 1,
        sender: generated(env),
        agent: generated(env),
        amount: 100,
        fee: 2,
        status,
        expiry: None,
    }
}

#[test]
fn test_transition_status_valid() {
    let env = Env::default();
    let mut remittance = remittance_in(&env, RemittanceStatus::Initiated);
    let result = transition_status(&mut remittance, RemittanceStatus::Submitted);
    assert!(result.is_ok());
    assert_eq!(remittance.status, RemittanceStatus::Submitted);
}

#[test]
fn test_transition_status_invalid() {
    let env = Env::default();
    let mut remittance = remittance_in(&env, RemittanceStatus::Initiated);
    let result = transition_status(&mut remittance, RemittanceStatus::Completed);
    assert!(result.is_err());
    assert_eq!(result.unwrap_err(), ContractError::InvalidStateTransition);
    assert_eq!(remittance.status, RemittanceStatus::Initiated);
}

#[test]
fn test_transition_status_idempotent() {
    let env = Env::default();
    let mut remittance = remittance_in(&env, RemittanceStatus::Submitted);
    let result = transition_status(&mut remittance, RemittanceStatus::Submitted);
    assert!(result.is_ok());
    assert_eq!(remittance.status, RemittanceStatus::Submitted);
}

#[test]
fn transition_keeps_every_other_field() {
    let env = Env::default();
    let before = remittance_in(&env, RemittanceStatus::PendingAnchor);
    let mut after = before.clone();
    transition_status(&mut after, RemittanceStatus::Completed).unwrap();
    assert_eq!(after, Remittance { status: RemittanceStatus::Completed, ..before });
}

#[test]
fn escrow_statuses_settle_cancel_or_fail() {
    assert_eq!(validate_transition(&RemittanceStatus::Pending, &RemittanceStatus::Completed), Ok(()));
    assert_eq!(validate_transition(&RemittanceStatus::Pending, &RemittanceStatus::Cancelled), Ok(()));
    assert_eq!(validate_transition(&RemittanceStatus::Pending, &RemittanceStatus::Failed), Ok(()));
    assert_eq!(
        validate_transition(&RemittanceStatus::Pending, &RemittanceStatus::Submitted),
        Err(ContractError::InvalidStateTransition)
    );
    assert_eq!(
        validate_transition(&RemittanceStatus::Cancelled, &RemittanceStatus::Failed),
        Err(ContractError::InvalidStateTransition)
    );
    assert!(is_terminal_status(&RemittanceStatus::Cancelled));
    assert!(!is_terminal_status(&RemittanceStatus::Pending));
    assert_eq!(
        get_valid_next_states(&RemittanceStatus::Pending),
        vec![RemittanceStatus::Completed, RemittanceStatus::Cancelled, RemittanceStatus::Failed]
    );
    assert!(get_valid_next_states(&RemittanceStatus::Cancelled).is_empty());
}
