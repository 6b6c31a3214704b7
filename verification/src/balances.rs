//! The mathematical model of a balance ledger: a finite map from account
//! names to integer balances, in which an absent account holds zero.

use vstd::prelude::*;
use crate::multisig::MultiSigError;

verus! {

/// The balance that `who` holds in `m`: zero where `m` has no entry.
pub open spec fn balance_in(m: Map<Seq<char>, int>, who: Seq<char>) -> int {
    if m.contains_key(who) {
        m[who]
    } else {
        0
    }
}

/// Whether `v` fits the ledger's 128-bit signed balances.
pub open spec fn fits_i128(v: int) -> bool {
    i128::MIN <= v <= i128::MAX
}

/// Whether every balance of `m` fits the ledger's 128-bit signed balances.
pub open spec fn balances_fit(m: Map<Seq<char>, int>) -> bool {
    forall|k: Seq<char>| m.contains_key(k) ==> fits_i128(#[trigger] m[k])
}

/// Debiting `amount` from `who`: rejected when the amount exceeds the
/// balance, or when the difference leaves the representable range.
pub open spec fn debit_result(m: Map<Seq<char>, int>, who: Seq<char>, amount: int) -> Result<
    Map<Seq<char>, int>,
    MultiSigError,
> {
    let held = balance_in(m, who);
    if amount > held {
        Err(MultiSigError::InsufficientBalance)
    } else if !fits_i128(held - amount) {
        Err(MultiSigError::Overflow)
    } else {
        Ok(m.insert(who, held - amount))
    }
}

/// Crediting `amount` to `who`: rejected when the sum leaves the
/// representable range.
pub open spec fn credit_result(m: Map<Seq<char>, int>, who: Seq<char>, amount: int) -> Result<
    Map<Seq<char>, int>,
    MultiSigError,
> {
    let held = balance_in(m, who);
    if !fits_i128(held + amount) {
        Err(MultiSigError::Overflow)
    } else {
        Ok(m.insert(who, held + amount))
    }
}

/// A transfer is a debit of the sender followed by a credit of the
/// recipient; it happens as a whole or not at all.
pub open spec fn transfer_result(
    m: Map<Seq<char>, int>,
    from: Seq<char>,
    to: Seq<char>,
    amount: int,
) -> Result<Map<Seq<char>, int>, MultiSigError> {
    match debit_result(m, from, amount) {
        Err(e) => Err(e),
        Ok(debited) => credit_result(debited, to, amount),
    }
}

/// The sum of all balances of a finite ledger.
pub open spec fn sum_of(m: Map<Seq<char>, int>) -> int
    decreases m.dom().len(),
    when m.dom().finite()
{
    if m.dom().len() == 0 {
        0
    } else {
        let k = m.dom().choose();
        m[k] + sum_of(m.remove(k))
    }
}

/// Any entry can be split off the sum.
pub proof fn lemma_sum_split(m: Map<Seq<char>, int>, k: Seq<char>)
    requires
        m.dom().finite(),
        m.contains_key(k),
    ensures
        sum_of(m) == m[k] + sum_of(m.remove(k)),
    decreases m.dom().len(),
{
    let c = m.dom().choose();
    if m.dom().len() == 0 {
        assert(m.dom() =~= Set::empty());
    } else if c != k {
        lemma_sum_split(m.remove(c), k);
        lemma_sum_split(m.remove(k), c);
        assert(m.remove(c).remove(k) =~= m.remove(k).remove(c));
    }
}

/// Writing `v` for `k` changes the sum by the difference to what `k` held.
pub proof fn lemma_sum_insert(m: Map<Seq<char>, int>, k: Seq<char>, v: int)
    requires
        m.dom().finite(),
    ensures
        sum_of(m.insert(k, v)) == sum_of(m) - balance_in(m, k) + v,
{
    let n = m.insert(k, v);
    lemma_sum_split(n, k);
    if m.contains_key(k) {
        lemma_sum_split(m, k);
        assert(n.remove(k) =~= m.remove(k));
    } else {
        assert(n.remove(k) =~= m);
    }
}

/// A transfer that goes through moves value and creates none: the sum of
/// all balances stays what it was, and the ledger stays finite and within
/// range.
pub proof fn lemma_transfer_conserves(m: Map<Seq<char>, int>, from: Seq<char>, to: Seq<char>, amount: int)
    requires
        m.dom().finite(),
        transfer_result(m, from, to, amount) is Ok,
    ensures
        transfer_result(m, from, to, amount)->Ok_0.dom().finite(),
        balances_fit(m) ==> balances_fit(transfer_result(m, from, to, amount)->Ok_0),
        sum_of(transfer_result(m, from, to, amount)->Ok_0) == sum_of(m),
{
    let debited = m.insert(from, balance_in(m, from) - amount);
    lemma_sum_insert(m, from, balance_in(m, from) - amount);
    lemma_sum_insert(debited, to, balance_in(debited, to) + amount);
}

} // verus!
