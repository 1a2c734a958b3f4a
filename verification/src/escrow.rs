//! Token movements into and out of the contract's escrow, and the balance
//! the escrow owes: the amounts of pending remittances plus the fees
//! collected and not yet withdrawn.

use vstd::prelude::*;
use vstd::set::fold::{is_fun_commutative, lemma_fold_empty, lemma_fold_insert};

use crate::storage::StorageModel;
use crate::types::{Address, RemittanceStatus, RemittanceView};

verus! {

/// Direction of a token movement, seen from the contract.
#[derive(Clone, Copy, Debug, PartialEq, Eq, Structural)]
pub enum TransferDirection {
    /// From `party` into the contract.
    IntoEscrow,
    /// From the contract to `party`.
    OutOfEscrow,
}

/// The abstract content of a [`TokenTransfer`].
pub struct TokenTransferView {
    pub direction: TransferDirection,
    pub party: Seq<u8>,
    pub amount: i128,
}

/// A USDC transfer between the contract and `party`, which the caller of an
/// operation carries out on the token contract.
#[derive(Clone, Debug, PartialEq, Eq)]
pub struct TokenTransfer {
    /// Into or out of the contract.
    pub direction: TransferDirection,
    /// The other side of the transfer.
    pub party: Address,
    /// The amount moved.
    pub amount: i128,
}

impl View for TokenTransfer {
    type V = TokenTransferView;

    open spec fn view(&self) -> TokenTransferView {
        TokenTransferView { direction: self.direction, party: self.party@, amount: self.amount }
    }
}

/// The views of a sequence of transfers.
pub open spec fn transfer_views(v: Seq<TokenTransfer>) -> Seq<TokenTransferView> {
    v.map_values(|t: TokenTransfer| t@)
}

/// The transfer of `amount` from `party` into the contract.
pub open spec fn deposit(party: Seq<u8>, amount: i128) -> TokenTransferView {
    TokenTransferView { direction: TransferDirection::IntoEscrow, party, amount }
}

/// The transfer of `amount` from the contract to `party`.
pub open spec fn payout(party: Seq<u8>, amount: i128) -> TokenTransferView {
    TokenTransferView { direction: TransferDirection::OutOfEscrow, party, amount }
}

/// Net amount a transfer brings into the contract.
pub open spec fn inflow(t: TokenTransferView) -> int {
    match t.direction {
        TransferDirection::IntoEscrow => t.amount as int,
        TransferDirection::OutOfEscrow => -(t.amount as int),
    }
}

/// Net amount a sequence of transfers brings into the contract.
pub open spec fn net_inflow(s: Seq<TokenTransferView>) -> int
    decreases s.len(),
{
    if s.len() == 0 {
        0
    } else {
        net_inflow(s.drop_last()) + inflow(s.last())
    }
}

/// What the escrow owes for one remittance: its amount while pending.
pub open spec fn escrow_share(r: RemittanceView) -> int {
    if r.status == RemittanceStatus::Pending { r.amount as int } else { 0 }
}

/// The step of the sum of escrow shares over the remittances of `m`.
pub open spec fn share_adder(m: Map<u64, RemittanceView>) -> spec_fn(int, u64) -> int {
    |acc: int, id: u64| acc + escrow_share(m[id])
}

/// Sum of the amounts of the pending remittances of `m`.
pub open spec fn pending_total(m: Map<u64, RemittanceView>) -> int {
    m.dom().fold(0int, share_adder(m))
}

/// What the escrow owes in storage `m`: the pending amounts plus the
/// collected fees.
pub open spec fn escrow_obligations(m: StorageModel) -> int {
    pending_total(m.remittances) + match m.accumulated_fees {
        Some(f) => f as int,
        None => 0,
    }
}

proof fn lemma_share_adder_commutative(m: Map<u64, RemittanceView>)
    ensures
        is_fun_commutative(share_adder(m)),
{
}

proof fn lemma_fold_agree(s: Set<u64>, f: spec_fn(int, u64) -> int, g: spec_fn(int, u64) -> int)
    requires
        s.finite(),
        is_fun_commutative(f),
        is_fun_commutative(g),
        forall|acc: int, x: u64| s.contains(x) ==> #[trigger] f(acc, x) == g(acc, x),
    ensures
        s.fold(0int, f) == s.fold(0int, g),
    decreases s.len(),
{
    if s.len() == 0 {
        s.lemma_len0_is_empty();
        lemma_fold_empty(0int, f);
        lemma_fold_empty(0int, g);
    } else {
        let a = s.choose();
        let t = s.remove(a);
        lemma_fold_agree(t, f, g);
        lemma_fold_insert(t, 0int, f, a);
        lemma_fold_insert(t, 0int, g, a);
        assert(t.insert(a) =~= s);
    }
}

/// Storing `r` under `id` changes the pending total by what `r` owes minus
/// what the remittance it replaces owed.
pub proof fn lemma_pending_total_insert(m: Map<u64, RemittanceView>, id: u64, r: RemittanceView)
    requires
        m.dom().finite(),
    ensures
        pending_total(m.insert(id, r)) == pending_total(m) + escrow_share(r)
            - (if m.contains_key(id) { escrow_share(m[id]) } else { 0 }),
{
    let m2 = m.insert(id, r);
    let f = share_adder(m);
    let g = share_adder(m2);
    lemma_share_adder_commutative(m);
    lemma_share_adder_commutative(m2);
    let s = m.dom().remove(id);
    assert forall|acc: int, x: u64| s.contains(x) implies #[trigger] f(acc, x) == g(acc, x) by {
        assert(m2[x] == m[x]);
    }
    lemma_fold_agree(s, f, g);
    assert(m2.dom() =~= s.insert(id));
    lemma_fold_insert(s, 0int, g, id);
    if m.contains_key(id) {
        assert(m.dom() =~= s.insert(id));
        lemma_fold_insert(s, 0int, f, id);
    } else {
        assert(m.dom() =~= s);
    }
}

} // verus!

verus! {

/// Recording one more transfer adds its inflow to the net inflow.
pub proof fn lemma_push_transfer(v: Seq<TokenTransfer>, t: TokenTransfer)
    ensures
        transfer_views(v.push(t)) == transfer_views(v).push(t@),
        net_inflow(transfer_views(v.push(t))) == net_inflow(transfer_views(v)) + inflow(t@),
{
    assert(transfer_views(v.push(t)) =~= transfer_views(v).push(t@));
    assert(transfer_views(v).push(t@).drop_last() =~= transfer_views(v));
}

} // verus!
