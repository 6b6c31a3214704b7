//! Simulation: what a transfer would do to the balances it touches, worked
//! out on a snapshot and without writing to any ledger.

use vstd::prelude::*;
use crate::account::Account;

verus! {

/// A transfer together with the balances it was read against.
#[derive(Debug, PartialEq, Eq)]
pub struct Transaction {
    pub from: Account,
    pub to: Account,
    pub amount: i128,
    pub from_balance: i128,
    pub to_balance: i128,
}

/// The balances that a transfer leaves.
#[derive(Clone, Copy, Debug, PartialEq, Eq)]
pub struct TransactionOutcome {
    pub from_balance: i128,
    pub to_balance: i128,
}

/// Why a simulation is refused.
#[derive(Clone, Copy, Debug, PartialEq, Eq, Structural)]
pub enum SimulationError {
    InvalidParameters,
}

impl Transaction {
    /// Whether the transfer would go through: its amount is positive and
    /// covered by the sender's balance, the recipient's new balance is
    /// representable, and a transfer to oneself names one balance.
    pub open spec fn spec_valid(&self) -> bool {
        &&& 0 < self.amount <= self.from_balance
        &&& self.from@ == self.to@ ==> self.from_balance == self.to_balance
        &&& self.from@ != self.to@ ==> self.to_balance + self.amount <= i128::MAX
    }

    /// The balances after the transfer: the amount has moved from sender to
    /// recipient; a transfer to oneself leaves the balance.
    pub open spec fn spec_outcome(&self) -> TransactionOutcome {
        if self.from@ == self.to@ {
            TransactionOutcome { from_balance: self.from_balance, to_balance: self.to_balance }
        } else {
            TransactionOutcome {
                from_balance: (self.from_balance - self.amount) as i128,
                to_balance: (self.to_balance + self.amount) as i128,
            }
        }
    }

    /// Whether the transfer would go through.
    pub fn is_valid(&self) -> (valid: bool)
        ensures
            valid == self.spec_valid(),
    {
        if self.amount <= 0 || self.amount > self.from_balance {
            return false;
        }
        if self.from.same(&self.to) {
            self.from_balance == self.to_balance
        } else {
            self.to_balance.checked_add(self.amount).is_some()
        }
    }

    /// The balances that the transfer would leave.
    pub fn project_outcome(&self) -> (outcome: TransactionOutcome)
        requires
            self.spec_valid(),
        ensures
            outcome == self.spec_outcome(),
    {
        if self.from.same(&self.to) {
            TransactionOutcome { from_balance: self.from_balance, to_balance: self.to_balance }
        } else {
            TransactionOutcome {
                from_balance: self.from_balance - self.amount,
                to_balance: self.to_balance + self.amount,
            }
        }
    }

    /// A sample transfer that goes through: 300 out of 1000.
    pub fn mock_valid() -> (tx: Transaction)
        ensures
            tx.spec_valid(),
            tx.amount == 300 && tx.from_balance == 1000 && tx.to_balance == 0,
    {
        let tx = Transaction {
            from: Account::new("sender"),
            to: Account::new("recipient"),
            amount: 300,
            from_balance: 1000,
            to_balance: 0,
        };
        proof {
            reveal_strlit("sender");
            reveal_strlit("recipient");
            assert("sender"@.len() != "recipient"@.len());
        }
        tx
    }

    /// A sample transfer that does not go through: 300 out of 100.
    pub fn mock_invalid() -> (tx: Transaction)
        ensures
            !tx.spec_valid(),
            tx.amount == 300 && tx.from_balance == 100 && tx.to_balance == 0,
    {
        Transaction {
            from: Account::new("sender"),
            to: Account::new("recipient"),
            amount: 300,
            from_balance: 100,
            to_balance: 0,
        }
    }
}

/// Simulates a transfer: the balances it would leave, or
/// `InvalidParameters` where it would not go through. Nothing is written.
pub fn simulate_transaction(tx: &Transaction) -> (result: Result<TransactionOutcome, SimulationError>)
    ensures
        tx.spec_valid() ==> result == Ok::<TransactionOutcome, SimulationError>(tx.spec_outcome()),
        !tx.spec_valid() ==> result == Err::<TransactionOutcome, SimulationError>(
            SimulationError::InvalidParameters,
        ),
{
    if !tx.is_valid() {
        return Err(SimulationError::InvalidParameters);
    }
    Ok(tx.project_outcome())
}

} // verus!
