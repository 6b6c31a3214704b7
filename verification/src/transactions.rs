//! The transfer router and the approval engine: a transfer below the
//! high-value threshold is executed at once, any other waits in the pending
//! store until a quorum of signers has approved it.

use vstd::prelude::*;
use crate::account::{names_of, opt_name, Account};
use crate::balances::{balance_in, transfer_result};
use crate::multisig::{
    admin_error, ensure_multisig_configured, executed_event, get_admin, get_approval_count,
    get_high_value_threshold, get_signers, get_threshold, has_approval, initialize_state, initialized,
    next_tx_id, pending_created_event, record_approval, require_admin, require_signer,
    set_high_value_threshold, set_signers, set_signers_error, set_threshold_error, EventView,
    MultiSigError, MultisigEvent, MultisigEvents, MultisigState, StateView,
};
use crate::pending::{approved_in, count_in, fresh_record, with_executed, with_mark, PendingTx, StoreView, TxView};
use crate::registry::{quorum_configured, RegistryView};

verus! {

/// Why a submission is refused, if it is. The checks are made in this
/// order, and all of them before anything is written. `authorized` is the
/// host's word on whether the caller has authenticated as `from`.
pub open spec fn submit_error(s: StateView, from: Seq<char>, authorized: bool, to: Seq<char>, amount: int) -> Option<
    MultiSigError,
> {
    if !authorized {
        Some(MultiSigError::Unauthorized)
    } else if amount <= 0 {
        Some(MultiSigError::InvalidAmount)
    } else if amount < s.registry.high_value_threshold {
        match transfer_result(s.balances, from, to, amount) {
            Err(e) => Some(e),
            Ok(_) => None,
        }
    } else if !quorum_configured(s.registry.signers, s.registry.threshold) {
        Some(MultiSigError::MultisigNotConfigured)
    } else if s.store.last_id >= u64::MAX {
        Some(MultiSigError::Overflow)
    } else {
        None
    }
}

/// The state after an accepted submission: below the high-value threshold
/// the balances move and nothing is stored; from the threshold on the
/// transfer is stored under the next id and the balances stay.
pub open spec fn submit_state(
    s: StateView,
    from: Seq<char>,
    to: Seq<char>,
    amount: int,
    payload: Seq<char>,
    asset: Option<Seq<char>>,
    now: u64,
) -> StateView {
    if amount < s.registry.high_value_threshold {
        let tx = TxView { id: 0, from, to, amount, payload, asset, created_at: now, executed: true };
        StateView {
            balances: transfer_result(s.balances, from, to, amount)->Ok_0,
            events: s.events.push(executed_event(tx, from)),
            ..s
        }
    } else {
        let id = (s.store.last_id + 1) as u64;
        let tx = TxView { id, from, to, amount, payload, asset, created_at: now, executed: false };
        StateView {
            store: StoreView {
                last_id: s.store.last_id + 1,
                records: s.store.records.insert(id, fresh_record(id, tx)),
            },
            events: s.events.push(pending_created_event(tx)),
            ..s
        }
    }
}

/// What an accepted submission returns: nothing for a transfer that was
/// executed at once, the new id for one that waits.
pub open spec fn submit_value(s: StateView, amount: int) -> Option<u64> {
    if amount < s.registry.high_value_threshold {
        None
    } else {
        Some((s.store.last_id + 1) as u64)
    }
}

/// Why an approval is refused, if it is. The checks are made in this order,
/// and all of them before anything is written; the last is that of the
/// transfer which an approval that completes the quorum executes.
/// `authorized` is the host's word on whether the caller has authenticated
/// as `signer`.
pub open spec fn approve_error(s: StateView, tx_id: u64, signer: Seq<char>, authorized: bool) -> Option<
    MultiSigError,
> {
    if !authorized {
        Some(MultiSigError::Unauthorized)
    } else if !s.store.records.contains_key(tx_id) {
        Some(MultiSigError::PendingTxNotFound)
    } else if s.store.records[tx_id].tx.executed {
        Some(MultiSigError::AlreadyExecuted)
    } else if !s.registry.signers.contains(signer) {
        Some(MultiSigError::UnauthorizedSigner)
    } else if s.store.records[tx_id].approvers.contains(signer) {
        Some(MultiSigError::DuplicateApproval)
    } else if count_in(s.store, tx_id) + 1 > u32::MAX {
        Some(MultiSigError::Overflow)
    } else if reaches_quorum(s, tx_id) {
        let tx = s.store.records[tx_id].tx;
        match transfer_result(s.balances, tx.from, tx.to, tx.amount) {
            Err(e) => Some(e),
            Ok(_) => None,
        }
    } else {
        None
    }
}

/// Whether one more approval of `tx_id` meets the threshold.
pub open spec fn reaches_quorum(s: StateView, tx_id: u64) -> bool {
    count_in(s.store, tx_id) + 1 >= s.registry.threshold
}

/// The state after an accepted approval: the mark is set; where it
/// completes the quorum the transfer is executed and the record says so.
pub open spec fn approve_state(s: StateView, tx_id: u64, signer: Seq<char>) -> StateView {
    let tx = s.store.records[tx_id].tx;
    let recorded = EventView::ApprovalRecorded {
        tx_id,
        signer,
        approvals_count: count_in(s.store, tx_id) + 1,
        threshold: s.registry.threshold,
    };
    if reaches_quorum(s, tx_id) {
        StateView {
            store: with_executed(with_mark(s.store, tx_id, signer), tx_id),
            balances: transfer_result(s.balances, tx.from, tx.to, tx.amount)->Ok_0,
            events: s.events.push(recorded).push(executed_event(TxView { executed: true, ..tx }, signer)),
            ..s
        }
    } else {
        StateView { store: with_mark(s.store, tx_id, signer), events: s.events.push(recorded), ..s }
    }
}

/// Why `set_balance` is refused, if it is.
pub open spec fn set_balance_error(s: StateView, caller: Seq<char>, authorized: bool, amount: int) -> Option<
    MultiSigError,
> {
    match admin_error(s, caller, authorized) {
        Some(e) => Some(e),
        None => if amount < 0 {
            Some(MultiSigError::InvalidAmount)
        } else {
            None
        },
    }
}

/// The transfer service: the engine's state behind the operations that its
/// host offers to callers. The host asks the account that originates a call
/// to authenticate, once for each call that changes the state, and hands
/// the answer in as `authorized`.
pub struct TransactionsContract {
    pub state: MultisigState,
}

impl View for TransactionsContract {
    type V = StateView;

    open spec fn view(&self) -> StateView {
        self.state@
    }
}

impl TransactionsContract {
    /// The invariant of the service: that of its state.
    pub open spec fn wf(&self) -> bool {
        self.state.wf()
    }

    /// The service before initialization.
    pub fn new() -> (contract: TransactionsContract)
        ensures
            contract.wf(),
            contract@ == (StateView {
                admin: None,
                registry: RegistryView {
                    signers: Seq::empty(),
                    threshold: 0,
                    high_value_threshold: i128::MAX as int,
                },
                store: StoreView { last_id: 0, records: Map::empty() },
                balances: Map::empty(),
                events: Seq::empty(),
            }),
    {
        TransactionsContract { state: MultisigState::new() }
    }

    /// Makes `admin` the administrator; `AlreadyInitialized`, and no effect,
    /// where there is one.
    pub fn initialize(&mut self, admin: Account) -> (result: Result<(), MultiSigError>)
        requires
            old(self).wf(),
        ensures
            final(self).wf(),
            old(self)@.admin is Some ==> final(self)@ == old(self)@ && result == Err::<(), MultiSigError>(
                MultiSigError::AlreadyInitialized,
            ),
            old(self)@.admin is None ==> final(self)@ == initialized(old(self)@, admin@) && result is Ok,
    {
        initialize_state(&mut self.state, admin)
    }

    /// The administrator; `NotInitialized` before initialization.
    pub fn get_admin(&self) -> (result: Result<Account, MultiSigError>)
        ensures
            match self@.admin {
                Some(admin) => result is Ok && result->Ok_0@ == admin,
                None => result == Err::<Account, MultiSigError>(MultiSigError::NotInitialized),
            },
    {
        get_admin(&self.state)
    }

    /// Replaces the signer list and the threshold on behalf of the
    /// administrator, both or neither.
    pub fn set_signers(&mut self, caller: Account, authorized: bool, signers: Vec<Account>, threshold: u32) -> (result:
        Result<(), MultiSigError>)
        requires
            old(self).wf(),
        ensures
            final(self).wf(),
            match set_signers_error(old(self)@, caller@, authorized, names_of(signers@), threshold as nat) {
                Some(e) => result == Err::<(), MultiSigError>(e) && final(self)@ == old(self)@,
                None => result is Ok && final(self)@ == (StateView {
                    registry: RegistryView {
                        signers: names_of(signers@),
                        threshold: threshold as nat,
                        high_value_threshold: old(self)@.registry.high_value_threshold,
                    },
                    ..old(self)@
                }),
            },
    {
        set_signers(&mut self.state, caller, authorized, signers, threshold)
    }

    /// Replaces the high-value threshold on behalf of the administrator.
    pub fn set_high_value_threshold(&mut self, caller: Account, authorized: bool, amount: i128) -> (result:
        Result<(), MultiSigError>)
        requires
            old(self).wf(),
        ensures
            final(self).wf(),
            match set_threshold_error(old(self)@, caller@, authorized, amount as int) {
                Some(e) => result == Err::<(), MultiSigError>(e) && final(self)@ == old(self)@,
                None => result is Ok && final(self)@ == (StateView {
                    registry: RegistryView { high_value_threshold: amount as int, ..old(self)@.registry },
                    ..old(self)@
                }),
            },
    {
        set_high_value_threshold(&mut self.state, caller, authorized, amount)
    }

    /// The signers, in the order they were configured.
    pub fn get_signers(&self) -> (signers: Vec<Account>)
        ensures
            names_of(signers@) == self@.registry.signers,
    {
        get_signers(&self.state)
    }

    /// The approval threshold; zero while unconfigured.
    pub fn get_threshold(&self) -> (threshold: u32)
        ensures
            threshold == self@.registry.threshold,
    {
        get_threshold(&self.state)
    }

    /// The high-value threshold.
    pub fn get_high_value_threshold(&self) -> (amount: i128)
        ensures
            amount == self@.registry.high_value_threshold,
    {
        get_high_value_threshold(&self.state)
    }

    /// Writes `amount` as the balance of `user` on behalf of the
    /// administrator; a negative amount is refused with `InvalidAmount`.
    pub fn set_balance(&mut self, caller: Account, authorized: bool, user: Account, amount: i128) -> (result:
        Result<(), MultiSigError>)
        requires
            old(self).wf(),
        ensures
            final(self).wf(),
            match set_balance_error(old(self)@, caller@, authorized, amount as int) {
                Some(e) => result == Err::<(), MultiSigError>(e) && final(self)@ == old(self)@,
                None => result is Ok && final(self)@ == (StateView {
                    balances: old(self)@.balances.insert(user@, amount as int),
                    ..old(self)@
                }),
            },
    {
        match require_admin(&self.state, &caller, authorized) {
            Err(e) => Err(e),
            Ok(()) => {
                if amount < 0 {
                    return Err(MultiSigError::InvalidAmount);
                }
                self.state.ledger.set_balance(&user, amount);
                Ok(())
            },
        }
    }

    /// What `user` holds: zero if nothing was ever written for it.
    pub fn get_balance(&self, user: Account) -> (held: i128)
        requires
            self.wf(),
        ensures
            held == balance_in(self@.balances, user@),
    {
        self.state.ledger.balance_of(&user)
    }

    /// Routes a transfer of `amount` from `from` to `to`, requested at time
    /// `now` by a caller of whom the host says in `authorized` whether it
    /// has authenticated as `from`.
    ///
    /// An amount below the high-value threshold is transferred at once and
    /// `None` is returned. Any other amount is stored as a pending
    /// transaction under the next id, which is returned; the balances then
    /// stay as they are until a quorum has approved. A refused submission,
    /// for the reason that `submit_error` gives, changes nothing.
    pub fn submit_transaction(
        &mut self,
        from: Account,
        authorized: bool,
        to: Account,
        amount: i128,
        payload: String,
        asset: Option<Account>,
        now: u64,
    ) -> (result: Result<Option<u64>, MultiSigError>)
        requires
            old(self).wf(),
        ensures
            final(self).wf(),
            match submit_error(old(self)@, from@, authorized, to@, amount as int) {
                Some(e) => result == Err::<Option<u64>, MultiSigError>(e) && final(self)@ == old(self)@,
                None => result == Ok::<Option<u64>, MultiSigError>(submit_value(old(self)@, amount as int))
                    && final(self)@ == submit_state(
                    old(self)@,
                    from@,
                    to@,
                    amount as int,
                    payload@,
                    opt_name(asset),
                    now,
                ),
            },
    {
        proof {
            self.state.store.lemma_valid();
        }
        if !authorized {
            return Err(MultiSigError::Unauthorized);
        }
        if amount <= 0 {
            return Err(MultiSigError::InvalidAmount);
        }
        let high_value_threshold = get_high_value_threshold(&self.state);
        if amount < high_value_threshold {
            match self.state.ledger.transfer(&from, &to, amount) {
                Err(e) => {
                    return Err(e);
                },
                Ok(()) => {},
            }
            let executor = from.clone();
            let executed_tx = PendingTx {
                id: 0,
                from,
                to,
                amount,
                payload,
                asset,
                created_at: now,
                executed: true,
            };
            let event = MultisigEvents::transaction_executed(&executed_tx, &executor);
            self.state.emit(event);
            return Ok(None);
        }
        match ensure_multisig_configured(&self.state) {
            Err(e) => {
                return Err(e);
            },
            Ok(()) => {},
        }
        let tx_id = match next_tx_id(&mut self.state) {
            Err(e) => {
                return Err(e);
            },
            Ok(id) => id,
        };
        let pending_tx = PendingTx {
            id: tx_id,
            from,
            to,
            amount,
            payload,
            asset,
            created_at: now,
            executed: false,
        };
        let event = MultisigEvents::pending_created(&pending_tx);
        self.state.store.create(tx_id, pending_tx);
        self.state.emit(event);
        Ok(Some(tx_id))
    }

    /// Records the approval of `signer` for the pending transaction `tx_id`
    /// and returns the new approval count. The host says in `authorized`
    /// whether the caller has authenticated as `signer`.
    ///
    /// The approval that brings the count to the threshold executes the
    /// transfer and marks the transaction executed, in the same call. A
    /// refused approval, for the reason that `approve_error` gives, changes
    /// nothing.
    pub fn approve(&mut self, tx_id: u64, signer: Account, authorized: bool) -> (result: Result<
        u32,
        MultiSigError,
    >)
        requires
            old(self).wf(),
        ensures
            final(self).wf(),
            match approve_error(old(self)@, tx_id, signer@, authorized) {
                Some(e) => result == Err::<u32, MultiSigError>(e) && final(self)@ == old(self)@,
                None => result == Ok::<u32, MultiSigError>((count_in(old(self)@.store, tx_id) + 1) as u32)
                    && final(self)@ == approve_state(old(self)@, tx_id, signer@),
            },
    {
        if !authorized {
            return Err(MultiSigError::Unauthorized);
        }
        let pending_tx = match self.state.store.get(tx_id) {
            None => {
                return Err(MultiSigError::PendingTxNotFound);
            },
            Some(tx) => tx,
        };
        if pending_tx.executed {
            return Err(MultiSigError::AlreadyExecuted);
        }
        match require_signer(&self.state, &signer) {
            Err(e) => {
                return Err(e);
            },
            Ok(()) => {},
        }
        if has_approval(&self.state, tx_id, &signer) {
            return Err(MultiSigError::DuplicateApproval);
        }
        let approvals = match get_approval_count(&self.state, tx_id).checked_add(1) {
            None => {
                return Err(MultiSigError::Overflow);
            },
            Some(n) => n,
        };
        let threshold = get_threshold(&self.state);
        let quorum = approvals >= threshold;
        if quorum {
            match self.state.ledger.check_transfer(&pending_tx.from, &pending_tx.to, pending_tx.amount) {
                Err(e) => {
                    return Err(e);
                },
                Ok(()) => {},
            }
        }
        let recorded = record_approval(&mut self.state, tx_id, &signer);
        assert(recorded == Ok::<u32, MultiSigError>(approvals));
        self.state.emit(MultisigEvents::approval_recorded(tx_id, &signer, approvals, threshold));
        if quorum {
            let marked = self.state.store.mark_executed(tx_id);
            let moved = self.state.ledger.transfer(&pending_tx.from, &pending_tx.to, pending_tx.amount);
            assert(marked is Ok && moved is Ok);
            let mut executed_tx = pending_tx;
            executed_tx.executed = true;
            self.state.emit(MultisigEvents::transaction_executed(&executed_tx, &signer));
        }
        Ok(approvals)
    }

    /// The transaction stored under `tx_id`, if there is one.
    pub fn get_pending_tx(&self, tx_id: u64) -> (found: Option<PendingTx>)
        ensures
            match found {
                Some(tx) => self@.store.records.contains_key(tx_id) && tx@ == self@.store.records[tx_id].tx,
                None => !self@.store.records.contains_key(tx_id),
            },
    {
        self.state.store.get(tx_id)
    }

    /// The number of distinct signers who approved `tx_id`; zero where
    /// nothing is stored.
    pub fn get_approval_count(&self, tx_id: u64) -> (count: u32)
        requires
            self.wf(),
        ensures
            count == count_in(self@.store, tx_id),
    {
        get_approval_count(&self.state, tx_id)
    }

    /// Whether `signer` has approved `tx_id`.
    pub fn has_approved(&self, tx_id: u64, signer: Account) -> (approved: bool)
        ensures
            approved == approved_in(self@.store, tx_id, signer@),
    {
        has_approval(&self.state, tx_id, &signer)
    }

    /// Hands out the events collected since the last call, oldest first.
    pub fn take_events(&mut self) -> (events: Vec<MultisigEvent>)
        requires
            old(self).wf(),
        ensures
            final(self).wf(),
            crate::multisig::events_of(events@) == old(self)@.events,
            final(self)@ == (StateView { events: Seq::empty(), ..old(self)@ }),
    {
        self.state.take_events()
    }
}

} // verus!
