//! Validation of remittance status transitions.
//!
//! Rules: a transition is allowed when it is a step of the state machine,
//! or when it leaves the status unchanged (repeated submissions are
//! idempotent). Terminal statuses never move to another status. An invalid
//! transition is reported as an error and changes nothing.

use vstd::prelude::*;

use crate::errors::ContractError;
use crate::types::{next_states, status_is_terminal, transition_allowed, Remittance, RemittanceStatus, RemittanceView};

verus! {

/// Whether `from -> to` passes validation: unchanged, or a state machine step.
pub open spec fn transition_valid(from: RemittanceStatus, to: RemittanceStatus) -> bool {
    from == to || transition_allowed(from, to)
}

/// Checks that a remittance may move from `from` to `to`.
pub fn validate_transition(from: &RemittanceStatus, to: &RemittanceStatus) -> (r: Result<(), ContractError>)
    ensures
        r is Ok <==> transition_valid(*from, *to),
        r is Ok <==> (*from == *to || next_states(*from).contains(*to)),
        r is Err ==> r == Err::<(), ContractError>(ContractError::InvalidStateTransition),
{
    proof {
        lemma_next_states_are_the_allowed_steps(*from, *to);
    }
    if *from == *to {
        return Ok(());
    }
    if from.can_transition_to(to) {
        Ok(())
    } else {
        Err(ContractError::InvalidStateTransition)
    }
}

/// Moves `remittance` to `new_status` if the transition is valid.
///
/// On an invalid transition the remittance is left exactly as it was.
pub fn transition_status(remittance: &mut Remittance, new_status: RemittanceStatus) -> (r: Result<(), ContractError>)
    ensures
        r is Ok <==> transition_valid(old(remittance).status, new_status),
        r is Ok <==> (old(remittance).status == new_status || next_states(old(remittance).status).contains(new_status)),
        r is Ok ==> final(remittance)@ == (RemittanceView { status: new_status, ..old(remittance)@ }),
        r is Err ==> final(remittance)@ == old(remittance)@
            && r == Err::<(), ContractError>(ContractError::InvalidStateTransition),
{
    validate_transition(&remittance.status, &new_status)?;
    remittance.status = new_status;
    Ok(())
}

/// Whether `status` is terminal.
pub fn is_terminal_status(status: &RemittanceStatus) -> (b: bool)
    ensures
        b == status_is_terminal(*status),
{
    status.is_terminal()
}

/// The statuses `status` may step to (empty for terminal statuses).
pub fn get_valid_next_states(status: &RemittanceStatus) -> (v: Vec<RemittanceStatus>)
    ensures
        v@ == next_states(*status),
{
    status.next_valid_states()
}

/// A terminal status can move to no other status.
pub proof fn lemma_terminal_status_is_final(from: RemittanceStatus, to: RemittanceStatus)
    requires
        status_is_terminal(from),
        to != from,
    ensures
        !transition_valid(from, to),
{
}

/// The listed next states are exactly the state machine steps.
pub proof fn lemma_next_states_are_the_allowed_steps(from: RemittanceStatus, to: RemittanceStatus)
    ensures
        next_states(from).contains(to) <==> transition_allowed(from, to),
{
    if transition_allowed(from, to) {
        assert(next_states(from)[0] == to || next_states(from)[1] == to || next_states(from)[2] == to);
    }
}

/// A status lists no next states exactly when it is terminal.
pub proof fn lemma_terminal_has_no_next_states(s: RemittanceStatus)
    ensures
        next_states(s).len() == 0 <==> status_is_terminal(s),
{
}

/// A status is terminal exactly when the state machine allows no step from it.
pub proof fn lemma_terminal_iff_no_step(s: RemittanceStatus)
    ensures
        status_is_terminal(s) <==> forall|t: RemittanceStatus| !#[trigger] transition_allowed(s, t),
{
    if !status_is_terminal(s) {
        assert(transition_allowed(s, RemittanceStatus::Failed));
    }
}

/// Every status that is not terminal may fail.
pub proof fn lemma_non_terminal_can_fail(s: RemittanceStatus)
    requires
        !status_is_terminal(s),
    ensures
        transition_allowed(s, RemittanceStatus::Failed),
{
}

/// The state machine never steps back to a status it came from: every step
/// strictly advances the rank `Initiated, Pending < Submitted < PendingAnchor < {Completed, Failed, Cancelled}`.
pub proof fn lemma_steps_advance(from: RemittanceStatus, to: RemittanceStatus)
    requires
        transition_allowed(from, to),
    ensures
        status_rank(from) < status_rank(to),
        !transition_allowed(to, from),
{
}

/// Position of a status along the state machine chain.
pub open spec fn status_rank(s: RemittanceStatus) -> int {
    match s {
        RemittanceStatus::Initiated => 0,
        RemittanceStatus::Submitted => 1,
        RemittanceStatus::PendingAnchor => 2,
        RemittanceStatus::Completed => 3,
        RemittanceStatus::Failed => 3,
        RemittanceStatus::Pending => 0,
        RemittanceStatus::Cancelled => 3,
    }
}

/// The transitions that validation accepts, pair by pair: staying put, the
/// transfer flow `Initiated -> Submitted -> PendingAnchor -> Completed`,
/// the escrow flow `Pending -> Completed | Cancelled`, and failure from any
/// of `Initiated`, `Submitted`, `PendingAnchor` and `Pending`. Nothing else.
pub proof fn lemma_transition_table(from: RemittanceStatus, to: RemittanceStatus)
    ensures
        transition_valid(from, to) <==> {
            ||| from == to
            ||| (from == RemittanceStatus::Initiated && to == RemittanceStatus::Submitted)
            ||| (from == RemittanceStatus::Submitted && to == RemittanceStatus::PendingAnchor)
            ||| (from == RemittanceStatus::PendingAnchor && to == RemittanceStatus::Completed)
            ||| (from == RemittanceStatus::Pending && to == RemittanceStatus::Completed)
            ||| (from == RemittanceStatus::Pending && to == RemittanceStatus::Cancelled)
            ||| (to == RemittanceStatus::Failed && (from == RemittanceStatus::Initiated || from
                == RemittanceStatus::Submitted || from == RemittanceStatus::PendingAnchor || from
                == RemittanceStatus::Pending))
        },
{
}

/// Only a pending remittance can be cancelled; from `Submitted` only
/// `PendingAnchor` and `Failed` are reachable.
pub proof fn lemma_cancel_only_from_pending(from: RemittanceStatus, to: RemittanceStatus)
    ensures
        from != RemittanceStatus::Cancelled && transition_valid(from, RemittanceStatus::Cancelled) ==> from
            == RemittanceStatus::Pending,
        from == RemittanceStatus::Submitted && transition_valid(from, to) ==> to == RemittanceStatus::Submitted || to
            == RemittanceStatus::PendingAnchor || to == RemittanceStatus::Failed,
{
}

} // verus!
