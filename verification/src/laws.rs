//! What holds of the engine as a whole: theorems over the functions that
//! the contracts of `submit_transaction` and `approve` are stated with.

use vstd::prelude::*;
use crate::balances::{lemma_transfer_conserves, sum_of, transfer_result};
use crate::multisig::{state_valid, MultiSigError, StateView};
use crate::pending::{approved_in, count_in, store_valid, TxView};
use crate::registry::config_error;
use crate::transactions::{approve_error, approve_state, submit_error, submit_state, submit_value};

verus! {

/// Threshold routing. An accepted submission returns no id exactly when the
/// amount is below the high-value threshold. It then moves the balances as
/// a transfer does and stores nothing. Otherwise it returns the next id,
/// stores the transfer under it as not executed and without approvals, and
/// leaves every balance as it was.
pub proof fn law_threshold_routing(
    s: StateView,
    from: Seq<char>,
    authorized: bool,
    to: Seq<char>,
    amount: int,
    payload: Seq<char>,
    asset: Option<Seq<char>>,
    now: u64,
)
    requires
        state_valid(s),
        submit_error(s, from, authorized, to, amount) is None,
    ensures
        submit_value(s, amount) is None <==> amount < s.registry.high_value_threshold,
        amount < s.registry.high_value_threshold ==> {
            let after = submit_state(s, from, to, amount, payload, asset, now);
            &&& transfer_result(s.balances, from, to, amount) == Ok::<Map<Seq<char>, int>, MultiSigError>(
                after.balances,
            )
            &&& after.store == s.store
        },
        amount >= s.registry.high_value_threshold ==> {
            let after = submit_state(s, from, to, amount, payload, asset, now);
            let id = (s.store.last_id + 1) as u64;
            &&& submit_value(s, amount) == Some(id)
            &&& after.balances == s.balances
            &&& id >= 1
            &&& forall|other: u64| #[trigger] s.store.records.contains_key(other) ==> other < id
            &&& !s.store.records.contains_key(id)
            &&& after.store.records.contains_key(id)
            &&& !after.store.records[id].tx.executed
            &&& count_in(after.store, id) == 0
        },
{
}

/// An accepted approval adds one to the approval count of its transaction,
/// and the transaction is executed by it exactly when the new count meets
/// the threshold: whoever the signer is. An approval that does not execute
/// leaves every balance as it was.
pub proof fn law_approval_counts_and_executes(s: StateView, tx_id: u64, signer: Seq<char>, authorized: bool)
    requires
        state_valid(s),
        approve_error(s, tx_id, signer, authorized) is None,
    ensures
        ({
            let after = approve_state(s, tx_id, signer);
            &&& count_in(after.store, tx_id) == count_in(s.store, tx_id) + 1
            &&& after.store.records[tx_id].tx.executed <==> count_in(after.store, tx_id)
                >= s.registry.threshold
            &&& !after.store.records[tx_id].tx.executed ==> after.balances == s.balances
        }),
{
}

/// Every transaction that still waits has fewer approvals than the
/// threshold asks for.
pub open spec fn waiting_below_quorum(s: StateView) -> bool {
    forall|id: u64| #[trigger]
        s.store.records.contains_key(id) && !s.store.records[id].tx.executed ==> count_in(s.store, id)
            < s.registry.threshold
}

/// Submissions keep every waiting transaction below the quorum.
pub proof fn law_submit_keeps_waiting_below_quorum(
    s: StateView,
    from: Seq<char>,
    authorized: bool,
    to: Seq<char>,
    amount: int,
    payload: Seq<char>,
    asset: Option<Seq<char>>,
    now: u64,
)
    requires
        state_valid(s),
        waiting_below_quorum(s),
        submit_error(s, from, authorized, to, amount) is None,
    ensures
        waiting_below_quorum(submit_state(s, from, to, amount, payload, asset, now)),
{
    let after = submit_state(s, from, to, amount, payload, asset, now);
    assert forall|id: u64| #[trigger]
        after.store.records.contains_key(id) && !after.store.records[id].tx.executed implies count_in(
        after.store,
        id,
    ) < after.registry.threshold by {
        if s.store.records.contains_key(id) {
            assert(count_in(s.store, id) < s.registry.threshold);
        }
    }
}

/// Quorum exactness. While the registry stays as it is, a transaction is
/// executed by exactly the approval that brings its count from one below
/// the threshold to the threshold: not by an earlier one, and no later one
/// finds it waiting.
pub proof fn law_quorum_exactness(s: StateView, tx_id: u64, signer: Seq<char>, authorized: bool)
    requires
        state_valid(s),
        waiting_below_quorum(s),
        approve_error(s, tx_id, signer, authorized) is None,
    ensures
        approve_state(s, tx_id, signer).store.records[tx_id].tx.executed <==> count_in(s.store, tx_id)
            == s.registry.threshold - 1,
        waiting_below_quorum(approve_state(s, tx_id, signer)),
{
    let after = approve_state(s, tx_id, signer);
    assert(count_in(s.store, tx_id) < s.registry.threshold);
    assert forall|id: u64| #[trigger]
        after.store.records.contains_key(id) && !after.store.records[id].tx.executed implies count_in(
        after.store,
        id,
    ) < after.registry.threshold by {
        if id != tx_id {
            assert(s.store.records.contains_key(id));
            assert(count_in(s.store, id) < s.registry.threshold);
        }
    }
}

/// Where a stored transaction stands: created and without approvals,
/// partially approved, or executed.
pub enum Phase {
    Created,
    PartiallyApproved,
    Executed,
}

/// The phase of the transaction stored under `id`.
pub open spec fn phase_of(s: StateView, id: u64) -> Phase {
    if s.store.records[id].tx.executed {
        Phase::Executed
    } else if count_in(s.store, id) == 0 {
        Phase::Created
    } else {
        Phase::PartiallyApproved
    }
}

/// The life of a pending transaction. Whatever call is made, a stored
/// transaction stays in its phase or moves forward: from created to
/// partially approved or executed, from partially approved to executed,
/// and from executed nowhere. Its record changes only by an accepted
/// approval of itself, which adds one approval and executes it exactly
/// when the new count meets the threshold.
pub proof fn law_lifecycle(s: StateView, call: Call, id: u64)
    requires
        state_valid(s),
        s.store.records.contains_key(id),
    ensures
        step(s, call).store.records.contains_key(id),
        match (phase_of(s, id), phase_of(step(s, call), id)) {
            (Phase::Created, _) => true,
            (Phase::PartiallyApproved, Phase::Created) => false,
            (Phase::PartiallyApproved, _) => true,
            (Phase::Executed, Phase::Executed) => true,
            (Phase::Executed, _) => false,
        },
        step(s, call).store.records[id] != s.store.records[id] ==> {
            &&& call matches Call::Approve { tx_id, signer, authorized }
            &&& tx_id == id
            &&& approve_error(s, tx_id, signer, authorized) is None
            &&& count_in(step(s, call).store, id) == count_in(s.store, id) + 1
            &&& phase_of(step(s, call), id) is Executed <==> count_in(step(s, call).store, id)
                >= s.registry.threshold
        },
{
    match call {
        Call::Submit { from, authorized, to, amount, payload, asset, now } => {
            if submit_error(s, from, authorized, to, amount) is None && amount >= s.registry.high_value_threshold {
                let fresh = (s.store.last_id + 1) as u64;
                assert(fresh != id);
            }
        },
        Call::Approve { tx_id, signer, authorized } => {},
    }
}

/// No double execution. Every approval of an executed transaction is
/// refused: with `AlreadyExecuted`, whoever approves, and with
/// `Unauthorized` where the caller has not even authenticated. A refused
/// approval changes neither the ledger nor any approval count.
pub proof fn law_no_double_execution(s: StateView, tx_id: u64, signer: Seq<char>, authorized: bool)
    requires
        s.store.records.contains_key(tx_id),
        s.store.records[tx_id].tx.executed,
    ensures
        approve_error(s, tx_id, signer, authorized) == Some(
            if authorized {
                MultiSigError::AlreadyExecuted
            } else {
                MultiSigError::Unauthorized
            },
        ),
        step(s, Call::Approve { tx_id, signer, authorized }) == s,
{
}

/// No double approval. A signer who has approved a transaction is refused
/// when approving it again: with `Unauthorized` where the caller has not
/// authenticated, with `AlreadyExecuted` once the transaction is executed,
/// with `UnauthorizedSigner` if the signer has left the registry, and with
/// `DuplicateApproval` otherwise. Nothing changes.
pub proof fn law_no_double_approval(s: StateView, tx_id: u64, signer: Seq<char>, authorized: bool)
    requires
        approved_in(s.store, tx_id, signer),
    ensures
        step(s, Call::Approve { tx_id, signer, authorized }) == s,
        approve_error(s, tx_id, signer, authorized) == Some(
            if !authorized {
                MultiSigError::Unauthorized
            } else if s.store.records[tx_id].tx.executed {
                MultiSigError::AlreadyExecuted
            } else if !s.registry.signers.contains(signer) {
                MultiSigError::UnauthorizedSigner
            } else {
                MultiSigError::DuplicateApproval
            },
        ),
{
}

/// The approval count of a transaction is the number of distinct signers
/// who approved it.
pub proof fn law_count_is_distinct_approvers(s: StateView, tx_id: u64)
    requires
        state_valid(s),
        s.store.records.contains_key(tx_id),
    ensures
        count_in(s.store, tx_id) == s.store.records[tx_id].approvers.to_set().len(),
        forall|signer: Seq<char>|
            s.store.records[tx_id].approvers.to_set().contains(signer) <==> approved_in(
                s.store,
                tx_id,
                signer,
            ),
{
    s.store.records[tx_id].approvers.unique_seq_to_set();
}

/// Registry validation. A threshold of zero, a threshold above the number
/// of signers and a repeated signer are each refused; distinct signers are
/// accepted with a threshold of one and with a threshold equal to their
/// number.
pub proof fn law_registry_validation(signers: Seq<Seq<char>>, threshold: nat)
    ensures
        threshold == 0 ==> config_error(signers, threshold) == Some(MultiSigError::InvalidThreshold),
        threshold > signers.len() ==> config_error(signers, threshold) == Some(
            MultiSigError::InvalidThreshold,
        ),
        !signers.no_duplicates() ==> config_error(signers, threshold) is Some,
        1 <= threshold <= signers.len() && !signers.no_duplicates() ==> config_error(signers, threshold)
            == Some(MultiSigError::DuplicateSigner),
        signers.len() >= 1 && signers.no_duplicates() && threshold == 1 ==> config_error(
            signers,
            threshold,
        ) is None,
        signers.len() >= 1 && signers.no_duplicates() && threshold == signers.len() ==> config_error(
            signers,
            threshold,
        ) is None,
{
}

/// One call of the engine that may move balances.
pub enum Call {
    Submit {
        from: Seq<char>,
        authorized: bool,
        to: Seq<char>,
        amount: int,
        payload: Seq<char>,
        asset: Option<Seq<char>>,
        now: u64,
    },
    Approve { tx_id: u64, signer: Seq<char>, authorized: bool },
}

/// The state after `call`: that of the accepted call, and the state before
/// where the call is refused.
pub open spec fn step(s: StateView, call: Call) -> StateView {
    match call {
        Call::Submit { from, authorized, to, amount, payload, asset, now } => if submit_error(
            s,
            from,
            authorized,
            to,
            amount,
        ) is None {
            submit_state(s, from, to, amount, payload, asset, now)
        } else {
            s
        },
        Call::Approve { tx_id, signer, authorized } => if approve_error(s, tx_id, signer, authorized)
            is None {
            approve_state(s, tx_id, signer)
        } else {
            s
        },
    }
}

/// The state after a sequence of calls, made one after the other.
pub open spec fn run(s: StateView, calls: Seq<Call>) -> StateView
    decreases calls.len(),
{
    if calls.len() == 0 {
        s
    } else {
        step(run(s, calls.drop_last()), calls.last())
    }
}

/// Each call keeps the state valid and the sum of all balances unchanged.
pub proof fn law_step_conserves(s: StateView, call: Call)
    requires
        state_valid(s),
    ensures
        state_valid(step(s, call)),
        sum_of(step(s, call).balances) == sum_of(s.balances),
        step(s, call).registry == s.registry,
{
    match call {
        Call::Submit { from, authorized, to, amount, payload, asset, now } => {
            if submit_error(s, from, authorized, to, amount) is None {
                if amount < s.registry.high_value_threshold {
                    lemma_transfer_conserves(s.balances, from, to, amount);
                }
            }
        },
        Call::Approve { tx_id, signer, authorized } => {
            if approve_error(s, tx_id, signer, authorized) is None {
                let after = approve_state(s, tx_id, signer);
                let tx = s.store.records[tx_id].tx;
                let before = s.store.records[tx_id].approvers;
                if count_in(s.store, tx_id) + 1 >= s.registry.threshold {
                    lemma_transfer_conserves(s.balances, tx.from, tx.to, tx.amount);
                }
                assert(after.store.records[tx_id].approvers == before.push(signer));
                assert(before.push(signer).no_duplicates()) by {
                    assert forall|i: int, j: int|
                        0 <= i < before.len() + 1 && 0 <= j < before.len() + 1 && i != j implies before.push(
                        signer,
                    )[i] != before.push(signer)[j] by {
                        if i < before.len() && j < before.len() {
                            assert(before[i] != before[j]);
                        } else if i < before.len() {
                            assert(before[i] != signer);
                        } else {
                            assert(before[j] != signer);
                        }
                    }
                }
                assert(store_valid(after.store));
            }
        },
    }
}

/// No balance is negative.
pub open spec fn balances_nonnegative(m: Map<Seq<char>, int>) -> bool {
    forall|k: Seq<char>| m.contains_key(k) ==> 0 <= #[trigger] m[k]
}

/// No call drives a balance below zero: a transfer is made only where the
/// sender's balance covers it.
pub proof fn law_balances_stay_nonnegative(s: StateView, call: Call)
    requires
        state_valid(s),
        balances_nonnegative(s.balances),
        forall|id: u64| #[trigger] s.store.records.contains_key(id) ==> s.store.records[id].tx.amount > 0,
    ensures
        balances_nonnegative(step(s, call).balances),
        forall|id: u64| #[trigger]
            step(s, call).store.records.contains_key(id) ==> step(s, call).store.records[id].tx.amount > 0,
{
}

/// A record is never removed, and once it is executed it is never changed:
/// whatever call is made, an executed transaction stays as it is, with its
/// approvals.
pub proof fn law_records_are_kept(s: StateView, call: Call, id: u64)
    requires
        state_valid(s),
        s.store.records.contains_key(id),
    ensures
        step(s, call).store.records.contains_key(id),
        s.store.records[id].tx.executed ==> step(s, call).store.records[id] == s.store.records[id],
        !s.store.records[id].tx.executed ==> step(s, call).store.records[id].tx == s.store.records[id].tx
            || step(s, call).store.records[id].tx == (TxView { executed: true, ..s.store.records[id].tx }),
        step(s, call).store.last_id >= s.store.last_id,
{
}

/// Balance conservation. Whatever calls are made, accepted or refused, in
/// whatever order: the sum of all balances stays what it was. Transfers,
/// executed at once or by a quorum, move value and create none.
pub proof fn law_balance_conservation(s: StateView, calls: Seq<Call>)
    requires
        state_valid(s),
    ensures
        state_valid(run(s, calls)),
        sum_of(run(s, calls).balances) == sum_of(s.balances),
    decreases calls.len(),
{
    if calls.len() > 0 {
        law_balance_conservation(s, calls.drop_last());
        law_step_conserves(run(s, calls.drop_last()), calls.last());
    }
}

} // verus!
