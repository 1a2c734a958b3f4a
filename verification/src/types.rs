//! Core data of the contract: addresses, remittance records and the
//! remittance status state machine.

use vstd::prelude::*;

verus! {

/// An account or contract address, held as its canonical XDR encoding.
///
/// Two addresses are the same address exactly when their encodings are equal.
#[derive(Clone, Debug, PartialEq, Eq, Hash)]
pub struct Address {
    xdr: Vec<u8>,
}

impl View for Address {
    type V = Seq<u8>;

    open spec fn view(&self) -> Seq<u8> {
        self.spec_xdr()
    }
}

impl Address {
    /// The XDR encoding of this address.
    pub closed spec fn spec_xdr(&self) -> Seq<u8> {
        self.xdr@
    }

    /// The address whose XDR encoding is `xdr`.
    pub fn new(xdr: Vec<u8>) -> (a: Address)
        ensures
            a@ == xdr@,
    {
        Address { xdr }
    }

    /// A copy of the XDR encoding of this address.
    pub fn to_xdr_bytes(&self) -> (b: Vec<u8>)
        ensures
            b@ == self@,
    {
        let mut out: Vec<u8> = Vec::new();
        let n = self.xdr.len();
        let mut i: usize = 0;
        while i < n
            invariant
                n == self.xdr@.len(),
                i <= n,
                out@ == self.xdr@.subrange(0, i as int),
            decreases n - i,
        {
            out.push(self.xdr[i]);
            i = i + 1;
            assert(out@ =~= self.xdr@.subrange(0, i as int));
        }
        assert(out@ =~= self.xdr@);
        out
    }

    /// A second address value equal to this one.
    pub fn duplicate(&self) -> (a: Address)
        ensures
            a@ == self@,
    {
        Address { xdr: self.to_xdr_bytes() }
    }

    /// Whether `self` and `other` are the same address.
    pub fn same_as(&self, other: &Address) -> (b: bool)
        ensures
            b == (self@ == other@),
    {
        let n = self.xdr.len();
        if n != other.xdr.len() {
            return false;
        }
        let mut i: usize = 0;
        while i < n
            invariant
                n == self.xdr@.len(),
                n == other.xdr@.len(),
                i <= n,
                forall|j: int| 0 <= j < i ==> self.xdr@[j] == other.xdr@[j],
            decreases n - i,
        {
            if self.xdr[i] != other.xdr[i] {
                return false;
            }
            i = i + 1;
        }
        assert(self.xdr@ =~= other.xdr@);
        true
    }
}

/// Status of a remittance.
///
/// The transfer flow runs `Initiated -> Submitted -> PendingAnchor ->
/// Completed`. The escrow flow of the contract uses `Pending` for a freshly
/// created remittance, which is settled to `Completed` or cancelled to
/// `Cancelled`. Every non-terminal status may also fail (`-> Failed`).
/// `Completed`, `Failed` and `Cancelled` are terminal.
#[derive(Clone, Copy, Debug, PartialEq, Eq, Structural, Hash)]
pub enum RemittanceStatus {
    /// Created, funds locked in the contract.
    Initiated,
    /// Submitted for processing by the agent.
    Submitted,
    /// Awaiting confirmation by the anchor.
    PendingAnchor,
    /// Settled: the agent received the payout.
    Completed,
    /// Failed; funds are refunded.
    Failed,
    /// Escrowed and awaiting payout confirmation by the agent.
    Pending,
    /// Cancelled by the sender; funds refunded.
    Cancelled,
}

/// Whether the state machine allows a step from `from` to `to`.
pub open spec fn transition_allowed(from: RemittanceStatus, to: RemittanceStatus) -> bool {
    match (from, to) {
        (RemittanceStatus::Initiated, RemittanceStatus::Submitted) => true,
        (RemittanceStatus::Initiated, RemittanceStatus::Failed) => true,
        (RemittanceStatus::Submitted, RemittanceStatus::PendingAnchor) => true,
        (RemittanceStatus::Submitted, RemittanceStatus::Failed) => true,
        (RemittanceStatus::PendingAnchor, RemittanceStatus::Completed) => true,
        (RemittanceStatus::PendingAnchor, RemittanceStatus::Failed) => true,
        (RemittanceStatus::Pending, RemittanceStatus::Completed) => true,
        (RemittanceStatus::Pending, RemittanceStatus::Cancelled) => true,
        (RemittanceStatus::Pending, RemittanceStatus::Failed) => true,
        _ => false,
    }
}

/// Whether `s` is a terminal status.
pub open spec fn status_is_terminal(s: RemittanceStatus) -> bool {
    s == RemittanceStatus::Completed || s == RemittanceStatus::Failed || s == RemittanceStatus::Cancelled
}

/// The statuses reachable in one step from `s`, in the order the contract lists them.
pub open spec fn next_states(s: RemittanceStatus) -> Seq<RemittanceStatus> {
    match s {
        RemittanceStatus::Initiated => seq![RemittanceStatus::Submitted, RemittanceStatus::Failed],
        RemittanceStatus::Submitted => seq![RemittanceStatus::PendingAnchor, RemittanceStatus::Failed],
        RemittanceStatus::PendingAnchor => seq![RemittanceStatus::Completed, RemittanceStatus::Failed],
        RemittanceStatus::Pending => seq![
            RemittanceStatus::Completed,
            RemittanceStatus::Cancelled,
            RemittanceStatus::Failed,
        ],
        _ => Seq::empty(),
    }
}

impl RemittanceStatus {
    /// Whether this status is terminal (`Completed`, `Failed` or `Cancelled`).
    pub fn is_terminal(&self) -> (b: bool)
        ensures
            b == status_is_terminal(*self),
    {
        match self {
            RemittanceStatus::Completed => true,
            RemittanceStatus::Failed => true,
            RemittanceStatus::Cancelled => true,
            _ => false,
        }
    }

    /// Whether the state machine allows a step from this status to `to`.
    pub fn can_transition_to(&self, to: &RemittanceStatus) -> (b: bool)
        ensures
            b == transition_allowed(*self, *to),
    {
        match (self, to) {
            (RemittanceStatus::Initiated, RemittanceStatus::Submitted) => true,
            (RemittanceStatus::Initiated, RemittanceStatus::Failed) => true,
            (RemittanceStatus::Submitted, RemittanceStatus::PendingAnchor) => true,
            (RemittanceStatus::Submitted, RemittanceStatus::Failed) => true,
            (RemittanceStatus::PendingAnchor, RemittanceStatus::Completed) => true,
            (RemittanceStatus::PendingAnchor, RemittanceStatus::Failed) => true,
            (RemittanceStatus::Pending, RemittanceStatus::Completed) => true,
            (RemittanceStatus::Pending, RemittanceStatus::Cancelled) => true,
            (RemittanceStatus::Pending, RemittanceStatus::Failed) => true,
            (RemittanceStatus::Completed, _) => false,
            (RemittanceStatus::Failed, _) => false,
            _ => false,
        }
    }

    /// The statuses this status may step to, in order.
    pub fn next_valid_states(&self) -> (v: Vec<RemittanceStatus>)
        ensures
            v@ == next_states(*self),
    {
        let mut v: Vec<RemittanceStatus> = Vec::new();
        match self {
            RemittanceStatus::Initiated => {
                v.push(RemittanceStatus::Submitted);
                v.push(RemittanceStatus::Failed);
            },
            RemittanceStatus::Submitted => {
                v.push(RemittanceStatus::PendingAnchor);
                v.push(RemittanceStatus::Failed);
            },
            RemittanceStatus::PendingAnchor => {
                v.push(RemittanceStatus::Completed);
                v.push(RemittanceStatus::Failed);
            },
            RemittanceStatus::Pending => {
                v.push(RemittanceStatus::Completed);
                v.push(RemittanceStatus::Cancelled);
                v.push(RemittanceStatus::Failed);
            },
            _ => {},
        }
        assert(v@ =~= next_states(*self));
        v
    }
}

/// The abstract content of a [`Remittance`].
pub struct RemittanceView {
    pub id: u64,
    pub sender: Seq<u8>,
    pub agent: Seq<u8>,
    pub amount: i128,
    pub fee: i128,
    pub status: RemittanceStatus,
    pub expiry: Option<u64>,
}

/// A remittance: `amount` escrowed by `sender`, paid out to `agent` minus `fee`.
#[derive(Clone, Debug, PartialEq, Eq)]
pub struct Remittance {
    /// Unique identifier.
    pub id: u64,
    /// The sender who deposited the funds.
    pub sender: Address,
    /// The agent who receives the payout.
    pub agent: Address,
    /// The amount deposited.
    pub amount: i128,
    /// The platform fee kept back from the payout.
    pub fee: i128,
    /// Current status.
    pub status: RemittanceStatus,
    /// Optional settlement deadline (seconds since the epoch).
    pub expiry: Option<u64>,
}

impl View for Remittance {
    type V = RemittanceView;

    open spec fn view(&self) -> RemittanceView {
        RemittanceView {
            id: self.id,
            sender: self.sender@,
            agent: self.agent@,
            amount: self.amount,
            fee: self.fee,
            status: self.status,
            expiry: self.expiry,
        }
    }
}

impl Remittance {
    /// A second remittance value equal to this one.
    pub fn duplicate(&self) -> (r: Remittance)
        ensures
            r@ == self@,
    {
        Remittance {
            id: self.id,
            sender: self.sender.duplicate(),
            agent: self.agent.duplicate(),
            amount: self.amount,
            fee: self.fee,
            status: self.status,
            expiry: self.expiry,
        }
    }
}

/// One remittance to settle in a batch.
#[derive(Clone, Copy, Debug, PartialEq, Eq)]
pub struct BatchSettlementEntry {
    /// The remittance to settle.
    pub remittance_id: u64,
}

/// Ids of the remittances a batch settlement settled.
#[derive(Clone, Debug, PartialEq, Eq)]
pub struct BatchSettlementResult {
    /// The settled remittance ids.
    pub settled_ids: Vec<u64>,
}

/// Predicted outcome of a settlement, computed without changing state.
#[derive(Clone, Copy, Debug, PartialEq, Eq)]
pub struct SettlementSimulation {
    /// Whether the settlement would succeed.
    pub would_succeed: bool,
    /// What the agent would receive (amount minus fee).
    pub payout_amount: i128,
    /// The fee that would be collected.
    pub fee: i128,
    /// Error code when the settlement would fail.
    pub error_message: Option<u32>,
}

/// A daily send limit for a currency and country.
#[derive(Clone, Debug, PartialEq, Eq)]
pub struct DailyLimit {
    /// Currency code.
    pub currency: String,
    /// Country code.
    pub country: String,
    /// The limit.
    pub limit: i128,
}

/// One transfer, as counted against a daily limit.
#[derive(Clone, Copy, Debug, PartialEq, Eq)]
pub struct TransferRecord {
    /// When the transfer happened.
    pub timestamp: u64,
    /// How much was transferred.
    pub amount: i128,
}

} // verus!
