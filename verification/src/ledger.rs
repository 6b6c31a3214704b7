//! The balance ledger: one signed balance per account, changed only by
//! overflow-checked debits and credits.

use vstd::prelude::*;
use crate::account::Account;
use crate::keyed_map::KeyedMap;
use crate::balances::{balance_in, balances_fit, credit_result, debit_result, transfer_result};
use crate::multisig::MultiSigError;

verus! {

/// The balances of all accounts. An account without an entry holds zero; an
/// entry appears with the first write to its account and is never removed.
pub struct Ledger {
    entries: KeyedMap<Account, i128>,
}

impl View for Ledger {
    type V = Map<Seq<char>, int>;

    closed spec fn view(&self) -> Map<Seq<char>, int> {
        self.entries@.map_values(|amount: i128| amount as int)
    }
}

impl Ledger {
    /// The ledger's invariant: no account has two entries.
    pub closed spec fn wf(&self) -> bool {
        self.entries.wf()
    }

    /// A ledger has finitely many entries, and each fits 128 bits.
    pub proof fn lemma_bounded(&self)
        ensures
            self@.dom().finite(),
            balances_fit(self@),
    {
        self.entries.lemma_finite();
        assert(self@.dom() =~= self.entries@.dom());
    }

    /// The ledger in which every account holds zero.
    pub fn new() -> (ledger: Ledger)
        ensures
            ledger.wf(),
            ledger@ == Map::<Seq<char>, int>::empty(),
    {
        let ledger = Ledger { entries: KeyedMap::new() };
        assert(ledger@ =~= Map::<Seq<char>, int>::empty());
        ledger
    }

    /// Writes `amount` as the balance of `account`.
    fn put(&mut self, account: &Account, amount: i128)
        requires
            old(self).wf(),
        ensures
            final(self).wf(),
            final(self)@ == old(self)@.insert(account@, amount as int),
    {
        self.entries.insert(account, amount);
        assert(self@ =~= old(self)@.insert(account@, amount as int));
    }

    /// What `account` holds: zero if it was never written.
    pub fn balance_of(&self, account: &Account) -> (held: i128)
        requires
            self.wf(),
        ensures
            held == balance_in(self@, account@),
    {
        match self.entries.get(account) {
            Some(amount) => *amount,
            None => 0,
        }
    }

    /// Takes `amount` from `account` and returns the new balance.
    ///
    /// Rejected with `InsufficientBalance` when `amount` exceeds the balance
    /// and with `Overflow` when the difference is not representable; a
    /// rejected debit leaves the ledger as it was.
    pub fn debit(&mut self, account: &Account, amount: i128) -> (result: Result<i128, MultiSigError>)
        requires
            old(self).wf(),
        ensures
            final(self).wf(),
            match debit_result(old(self)@, account@, amount as int) {
                Ok(m) => final(self)@ == m && result == Ok::<i128, MultiSigError>(
                    (balance_in(old(self)@, account@) - amount) as i128,
                ),
                Err(e) => final(self)@ == old(self)@ && result == Err::<i128, MultiSigError>(e),
            },
    {
        let held = self.balance_of(account);
        if amount > held {
            return Err(MultiSigError::InsufficientBalance);
        }
        match held.checked_sub(amount) {
            None => Err(MultiSigError::Overflow),
            Some(rest) => {
                self.put(account, rest);
                Ok(rest)
            },
        }
    }

    /// Adds `amount` to `account` and returns the new balance.
    ///
    /// Rejected with `Overflow` when the sum is not representable; a rejected
    /// credit leaves the ledger as it was.
    pub fn credit(&mut self, account: &Account, amount: i128) -> (result: Result<i128, MultiSigError>)
        requires
            old(self).wf(),
        ensures
            final(self).wf(),
            match credit_result(old(self)@, account@, amount as int) {
                Ok(m) => final(self)@ == m && result == Ok::<i128, MultiSigError>(
                    (balance_in(old(self)@, account@) + amount) as i128,
                ),
                Err(e) => final(self)@ == old(self)@ && result == Err::<i128, MultiSigError>(e),
            },
    {
        let held = self.balance_of(account);
        match held.checked_add(amount) {
            None => Err(MultiSigError::Overflow),
            Some(sum) => {
                self.put(account, sum);
                Ok(sum)
            },
        }
    }

    /// Whether a transfer of `amount` from `from` to `to` would go through,
    /// without changing anything.
    pub fn check_transfer(&self, from: &Account, to: &Account, amount: i128) -> (result: Result<
        (),
        MultiSigError,
    >)
        requires
            self.wf(),
        ensures
            match transfer_result(self@, from@, to@, amount as int) {
                Ok(_) => result is Ok,
                Err(e) => result == Err::<(), MultiSigError>(e),
            },
    {
        let held = self.balance_of(from);
        if amount > held {
            return Err(MultiSigError::InsufficientBalance);
        }
        match held.checked_sub(amount) {
            None => Err(MultiSigError::Overflow),
            Some(rest) => {
                let target = if from.same(to) {
                    rest
                } else {
                    self.balance_of(to)
                };
                match target.checked_add(amount) {
                    None => Err(MultiSigError::Overflow),
                    Some(_) => Ok(()),
                }
            },
        }
    }

    /// Moves `amount` from `from` to `to`: a debit, then a credit.
    ///
    /// Both steps are validated before either is made, so a rejected transfer
    /// leaves the ledger as it was: `InsufficientBalance` when `amount`
    /// exceeds what `from` holds, `Overflow` when a new balance is not
    /// representable.
    pub fn transfer(&mut self, from: &Account, to: &Account, amount: i128) -> (result: Result<
        (),
        MultiSigError,
    >)
        requires
            old(self).wf(),
        ensures
            final(self).wf(),
            match transfer_result(old(self)@, from@, to@, amount as int) {
                Ok(m) => final(self)@ == m && result is Ok,
                Err(e) => final(self)@ == old(self)@ && result == Err::<(), MultiSigError>(e),
            },
    {
        match self.check_transfer(from, to, amount) {
            Err(e) => Err(e),
            Ok(()) => {
                let debited = self.debit(from, amount);
                let credited = self.credit(to, amount);
                assert(debited is Ok && credited is Ok);
                Ok(())
            },
        }
    }

    /// Overwrites the balance of `account` with `amount`.
    pub fn set_balance(&mut self, account: &Account, amount: i128)
        requires
            old(self).wf(),
        ensures
            final(self).wf(),
            final(self)@ == old(self)@.insert(account@, amount as int),
    {
        self.put(account, amount);
    }
}

} // verus!
