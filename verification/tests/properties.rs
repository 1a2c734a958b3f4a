use std::collections::HashMap;

use proptest::test_runner::{Config, TestRunner};

use swiftremit::{
    Address, ContractError, RemittanceStatus, Storage, SwiftRemitContract, TokenTransfer, TransferDirection,
};

const CONTRACT: &[u8] = b"swiftremit-contract";

fn addr(name: &str) -> Address {
    Address::new(name.as_bytes().to_vec())
}

fn runner() -> TestRunner {
    TestRunner::new(Config { cases: 64, failure_persistence: None, ..Config::default() })
}

/// Token balances on which the transfers that the contract asks for are carried out.
struct Ledger {
    balances: HashMap<Vec<u8>, i128>,
}

impl Ledger {
    fn new() -> Ledger {
        Ledger { balances: HashMap::new() }
    }

    fn mint(&mut self, who: &Address, amount: i128) {
        *self.balances.entry(who.to_xdr_bytes()).or_insert(0) += amount;
    }

    fn balance(&self, who: &[u8]) -> i128 {
        *self.balances.get(who).unwrap_or(&0)
    }

    fn of(&self, who: &Address) -> i128 {
        self.balance(&who.to_xdr_bytes())
    }

    fn total(&self) -> i128 {
        self.balances.values().sum()
    }

    fn apply(&mut self, transfers: Vec<TokenTransfer>) {
        for t in transfers {
            let party = t.party.to_xdr_bytes();
            let (from, to) = match t.direction {
                TransferDirection::IntoEscrow => (party, CONTRACT.to_vec()),
                TransferDirection::OutOfEscrow => (CONTRACT.to_vec(), party),
            };
            let from_balance = self.balances.entry(from).or_insert(0);
            assert!(*from_balance >= t.amount, "transfer exceeds the balance");
            *from_balance -= t.amount;
            *self.balances.entry(to).or_insert(0) += t.amount;
        }
    }
}

struct World {
    store: Storage,
    ledger: Ledger,
    sender: Address,
    agent: Address,
}

fn world(fee_bps: u32, minted: i128) -> World {
    let mut store = Storage::new();
    let agent = addr("agent");
    let sender = addr("sender");
    SwiftRemitContract::initialize(&mut store, &addr("admin"), &addr("usdc"), fee_bps).unwrap();
    SwiftRemitContract::register_agent(&mut store, &agent).unwrap();
    let mut ledger = Ledger::new();
    ledger.mint(&sender, minted);
    World { store, ledger, sender, agent }
}

impl World {
    fn create(&mut self, amount: i128) -> Result<u64, ContractError> {
        let mut transfers = Vec::new();
        let r = SwiftRemitContract::create_remittance(
            &mut self.store,
            &mut transfers,
            self.sender.clone(),
            self.agent.clone(),
            amount,
            None,
        );
        self.ledger.apply(transfers);
        r
    }

    fn confirm(&mut self, id: u64) -> Result<(), ContractError> {
        let mut transfers = Vec::new();
        let r = SwiftRemitContract::confirm_payout(&mut self.store, &mut transfers, id, 0);
        self.ledger.apply(transfers);
        r
    }

    fn cancel(&mut self, id: u64) -> Result<(), ContractError> {
        let mut transfers = Vec::new();
        let r = SwiftRemitContract::cancel_remittance(&mut self.store, &mut transfers, id);
        self.ledger.apply(transfers);
        r
    }

    fn fees(&self) -> i128 {
        SwiftRemitContract::get_accumulated_fees(&self.store).unwrap()
    }
}

#[test]
fn no_balance_is_created_by_create_settle_or_cancel() {
    runner()
        .run(&(1i128..=1_000_000i128, 0u32..=1000u32, proptest::bool::ANY), |(amount, fee_bps, settle)| {
            let minted = 10_000_000i128;
            let mut w = world(fee_bps, minted);
            let id = w.create(amount).unwrap();
            assert_eq!(w.ledger.total(), minted);
            assert_eq!(w.ledger.balance(CONTRACT), amount);
            if settle {
                w.confirm(id).unwrap();
            } else {
                w.cancel(id).unwrap();
            }
            assert_eq!(w.ledger.total(), minted);
            assert!(w.ledger.of(&w.sender) >= 0);
            assert!(w.ledger.of(&w.agent) >= 0);
            // The escrow holds exactly the collected fees once nothing is pending.
            assert_eq!(w.ledger.balance(CONTRACT), w.fees());
            Ok(())
        })
        .unwrap();
}

#[test]
fn fee_is_amount_times_bps_over_10000_rounded_down() {
    runner()
        .run(&(1i128..=1_000_000_000i128, 0u32..=10000u32), |(amount, fee_bps)| {
            let mut w = world(fee_bps, amount);
            let id = w.create(amount).unwrap();
            let remittance = SwiftRemitContract::get_remittance(&w.store, id).unwrap();
            assert_eq!(remittance.fee, amount * fee_bps as i128 / 10000);
            assert!(remittance.fee >= 0 && remittance.fee <= amount);
            w.confirm(id).unwrap();
            assert_eq!(w.ledger.of(&w.agent), amount - remittance.fee);
            assert_eq!(w.fees(), remittance.fee);
            Ok(())
        })
        .unwrap();
}

#[test]
fn accumulated_fees_are_the_sum_of_settled_fees() {
    runner()
        .run(&proptest::collection::vec((1i128..=100_000i128, proptest::bool::ANY), 1..12), |ops| {
            let mut w = world(250, 100_000_000);
            let mut expected_fees = 0i128;
            let mut pending = 0i128;
            for (amount, settle) in ops {
                let id = w.create(amount).unwrap();
                if settle {
                    w.confirm(id).unwrap();
                    expected_fees += amount * 250 / 10000;
                } else {
                    pending += amount;
                }
            }
            assert_eq!(w.fees(), expected_fees);
            assert_eq!(w.ledger.balance(CONTRACT), expected_fees + pending);
            Ok(())
        })
        .unwrap();
}

#[test]
fn a_remittance_is_settled_or_cancelled_at_most_once() {
    runner()
        .run(&(1i128..=1_000_000i128, proptest::bool::ANY), |(amount, settle_first)| {
            let mut w = world(100, 10_000_000);
            let id = w.create(amount).unwrap();
            if settle_first {
                w.confirm(id).unwrap();
            } else {
                w.cancel(id).unwrap();
            }
            let contract_before = w.ledger.balance(CONTRACT);
            assert_eq!(w.confirm(id), Err(ContractError::InvalidStatus));
            assert_eq!(w.cancel(id), Err(ContractError::InvalidStatus));
            assert_eq!(w.ledger.balance(CONTRACT), contract_before);
            let status = SwiftRemitContract::get_remittance(&w.store, id).unwrap().status;
            let expected = if settle_first { RemittanceStatus::Completed } else { RemittanceStatus::Cancelled };
            assert_eq!(status, expected);
            Ok(())
        })
        .unwrap();
}
