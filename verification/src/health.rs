//! Health report of the contract, for monitoring.

use vstd::prelude::*;

verus! {

/// Health check response.
#[derive(Clone, Copy, Debug, PartialEq, Eq, Structural)]
pub struct HealthStatus {
    /// Whether the contract is operational.
    pub operational: bool,
    /// Ledger time of the report.
    pub timestamp: u64,
    /// Whether the contract has been initialized.
    pub initialized: bool,
}

/// The health report at ledger time `now`: always operational.
pub fn health_check(now: u64, initialized: bool) -> (h: HealthStatus)
    ensures
        h == (HealthStatus { operational: true, timestamp: now, initialized }),
{
    HealthStatus { operational: true, timestamp: now, initialized }
}

} // verus!
