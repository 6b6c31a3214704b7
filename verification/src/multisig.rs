//! The multisig approval engine's state and its configuration operations:
//! the administrator, the signer registry, the pending store, the ledger and
//! the events that wait to be published.

use vstd::prelude::*;
use crate::account::{opt_name, clone_opt_account, names_of, Account};
use crate::balances::balances_fit;
use crate::ledger::Ledger;
use crate::pending::{approved_in, count_in, mark_error, store_valid, with_mark, PendingTransactionStore, PendingTx, StoreView};
use crate::registry::{config_error, quorum_configured, registry_valid, RegistryView, SignerRegistry};

verus! {

/// Why an operation of the multisig engine was rejected.
#[derive(Copy, Clone, Debug, PartialEq, Eq, Structural, PartialOrd, Ord)]
pub enum MultiSigError {
    NotInitialized,
    AlreadyInitialized,
    Unauthorized,
    InvalidThreshold,
    DuplicateSigner,
    InvalidAmount,
    PendingTxNotFound,
    UnauthorizedSigner,
    DuplicateApproval,
    AlreadyExecuted,
    InsufficientBalance,
    MultisigNotConfigured,
    Overflow,
}

impl MultiSigError {
    /// The numeric code under which the error is reported.
    pub fn code(&self) -> (code: u32)
        ensures
            code == match *self {
                MultiSigError::NotInitialized => 1u32,
                MultiSigError::AlreadyInitialized => 2u32,
                MultiSigError::Unauthorized => 3u32,
                MultiSigError::InvalidThreshold => 4u32,
                MultiSigError::DuplicateSigner => 5u32,
                MultiSigError::InvalidAmount => 6u32,
                MultiSigError::PendingTxNotFound => 7u32,
                MultiSigError::UnauthorizedSigner => 8u32,
                MultiSigError::DuplicateApproval => 9u32,
                MultiSigError::AlreadyExecuted => 10u32,
                MultiSigError::InsufficientBalance => 11u32,
                MultiSigError::MultisigNotConfigured => 12u32,
                MultiSigError::Overflow => 13u32,
            },
    {
        match self {
            MultiSigError::NotInitialized => 1,
            MultiSigError::AlreadyInitialized => 2,
            MultiSigError::Unauthorized => 3,
            MultiSigError::InvalidThreshold => 4,
            MultiSigError::DuplicateSigner => 5,
            MultiSigError::InvalidAmount => 6,
            MultiSigError::PendingTxNotFound => 7,
            MultiSigError::UnauthorizedSigner => 8,
            MultiSigError::DuplicateApproval => 9,
            MultiSigError::AlreadyExecuted => 10,
            MultiSigError::InsufficientBalance => 11,
            MultiSigError::MultisigNotConfigured => 12,
            MultiSigError::Overflow => 13,
        }
    }
}

/// What the engine reports after a state transition. The engine only
/// collects events; publishing them is left to its host.
#[derive(Debug, PartialEq, Eq)]
pub enum MultisigEvent {
    /// A transfer was stored to wait for approvals.
    PendingCreated { tx_id: u64, from: Account, to: Account, amount: i128, asset: Option<Account> },
    /// A signer's approval was recorded.
    ApprovalRecorded { tx_id: u64, signer: Account, approvals_count: u32, threshold: u32 },
    /// A transfer was executed, at once (`tx_id` 0) or by a quorum.
    TransactionExecuted {
        tx_id: u64,
        executor: Account,
        from: Account,
        to: Account,
        amount: i128,
        asset: Option<Account>,
    },
}

/// An event as plain values.
pub enum EventView {
    PendingCreated { tx_id: u64, from: Seq<char>, to: Seq<char>, amount: int, asset: Option<Seq<char>> },
    ApprovalRecorded { tx_id: u64, signer: Seq<char>, approvals_count: nat, threshold: nat },
    TransactionExecuted {
        tx_id: u64,
        executor: Seq<char>,
        from: Seq<char>,
        to: Seq<char>,
        amount: int,
        asset: Option<Seq<char>>,
    },
}

impl View for MultisigEvent {
    type V = EventView;

    open spec fn view(&self) -> EventView {
        match *self {
            MultisigEvent::PendingCreated { tx_id, from, to, amount, asset } => EventView::PendingCreated {
                tx_id,
                from: from@,
                to: to@,
                amount: amount as int,
                asset: opt_name(asset),
            },
            MultisigEvent::ApprovalRecorded { tx_id, signer, approvals_count, threshold } =>
                EventView::ApprovalRecorded {
                tx_id,
                signer: signer@,
                approvals_count: approvals_count as nat,
                threshold: threshold as nat,
            },
            MultisigEvent::TransactionExecuted { tx_id, executor, from, to, amount, asset } =>
                EventView::TransactionExecuted {
                tx_id,
                executor: executor@,
                from: from@,
                to: to@,
                amount: amount as int,
                asset: opt_name(asset),
            },
        }
    }
}

impl MultisigEvent {
    /// The pair of topic words under which the event is published.
    pub fn topics(&self) -> (topics: (&'static str, &'static str))
        ensures
            self is PendingCreated ==> topics.0@ == "tx"@ && topics.1@ == "pending"@,
            self is ApprovalRecorded ==> topics.0@ == "approve"@ && topics.1@ == "record"@,
            self is TransactionExecuted ==> topics.0@ == "tx"@ && topics.1@ == "executed"@,
    {
        match self {
            MultisigEvent::PendingCreated { .. } => ("tx", "pending"),
            MultisigEvent::ApprovalRecorded { .. } => ("approve", "record"),
            MultisigEvent::TransactionExecuted { .. } => ("tx", "executed"),
        }
    }

    /// The id of the transaction that the event is about.
    pub fn tx_id(&self) -> (id: u64)
        ensures
            id == match self@ {
                EventView::PendingCreated { tx_id, .. } => tx_id,
                EventView::ApprovalRecorded { tx_id, .. } => tx_id,
                EventView::TransactionExecuted { tx_id, .. } => tx_id,
            },
    {
        match self {
            MultisigEvent::PendingCreated { tx_id, .. } => *tx_id,
            MultisigEvent::ApprovalRecorded { tx_id, .. } => *tx_id,
            MultisigEvent::TransactionExecuted { tx_id, .. } => *tx_id,
        }
    }
}

/// The event that reports the creation of `tx`.
pub open spec fn pending_created_event(tx: crate::pending::TxView) -> EventView {
    EventView::PendingCreated { tx_id: tx.id, from: tx.from, to: tx.to, amount: tx.amount, asset: tx.asset }
}

/// The event that reports the execution of `tx` on behalf of `executor`.
pub open spec fn executed_event(tx: crate::pending::TxView, executor: Seq<char>) -> EventView {
    EventView::TransactionExecuted {
        tx_id: tx.id,
        executor,
        from: tx.from,
        to: tx.to,
        amount: tx.amount,
        asset: tx.asset,
    }
}

/// The makers of the engine's events.
pub struct MultisigEvents;

impl MultisigEvents {
    /// The event for a transfer that was stored to wait for approvals.
    pub fn pending_created(tx: &PendingTx) -> (event: MultisigEvent)
        ensures
            event@ == pending_created_event(tx@),
    {
        MultisigEvent::PendingCreated {
            tx_id: tx.id,
            from: tx.from.clone(),
            to: tx.to.clone(),
            amount: tx.amount,
            asset: clone_opt_account(&tx.asset),
        }
    }

    /// The event for an approval of `signer`, with the count it brought and
    /// the threshold it is measured against.
    pub fn approval_recorded(tx_id: u64, signer: &Account, approvals_count: u32, threshold: u32) -> (event:
        MultisigEvent)
        ensures
            event@ == (EventView::ApprovalRecorded {
                tx_id,
                signer: signer@,
                approvals_count: approvals_count as nat,
                threshold: threshold as nat,
            }),
    {
        MultisigEvent::ApprovalRecorded { tx_id, signer: signer.clone(), approvals_count, threshold }
    }

    /// The event for a transfer that was executed on behalf of `executor`.
    pub fn transaction_executed(tx: &PendingTx, executor: &Account) -> (event: MultisigEvent)
        ensures
            event@ == executed_event(tx@, executor@),
    {
        MultisigEvent::TransactionExecuted {
            tx_id: tx.id,
            executor: executor.clone(),
            from: tx.from.clone(),
            to: tx.to.clone(),
            amount: tx.amount,
            asset: clone_opt_account(&tx.asset),
        }
    }
}

/// The events of a list, as plain values.
pub open spec fn events_of(events: Seq<MultisigEvent>) -> Seq<EventView> {
    Seq::new(events.len(), |i: int| events[i]@)
}

/// The engine's whole state as plain values.
pub struct StateView {
    /// The administrator; none before initialization.
    pub admin: Option<Seq<char>>,
    pub registry: RegistryView,
    pub store: StoreView,
    pub balances: Map<Seq<char>, int>,
    /// The events that were collected and not yet taken.
    pub events: Seq<EventView>,
}

/// The invariant of the engine's values.
pub open spec fn state_valid(s: StateView) -> bool {
    &&& registry_valid(s.registry)
    &&& store_valid(s.store)
    &&& s.balances.dom().finite()
    &&& balances_fit(s.balances)
}

/// The engine's state: everything that its operations read and change.
pub struct MultisigState {
    pub admin: Option<Account>,
    pub registry: SignerRegistry,
    pub store: PendingTransactionStore,
    pub ledger: Ledger,
    pub events: Vec<MultisigEvent>,
}

impl View for MultisigState {
    type V = StateView;

    open spec fn view(&self) -> StateView {
        StateView {
            admin: opt_name(self.admin),
            registry: self.registry@,
            store: self.store@,
            balances: self.ledger@,
            events: events_of(self.events@),
        }
    }
}

impl MultisigState {
    /// The invariant of the state: that of each of its parts.
    pub open spec fn wf(&self) -> bool {
        &&& self.registry.wf()
        &&& self.store.wf()
        &&& self.ledger.wf()
    }

    /// A well-formed state holds valid values.
    pub proof fn lemma_valid(&self)
        requires
            self.wf(),
        ensures
            state_valid(self@),
    {
        self.store.lemma_valid();
        self.ledger.lemma_bounded();
    }

    /// The state before initialization: no administrator, an unconfigured
    /// registry, no transaction, no balance, no event.
    pub fn new() -> (state: MultisigState)
        ensures
            state.wf(),
            state@ == (StateView {
                admin: None,
                registry: RegistryView {
                    signers: Seq::empty(),
                    threshold: 0,
                    high_value_threshold: i128::MAX as int,
                },
                store: StoreView { last_id: 0, records: Map::empty() },
                balances: Map::empty(),
                events: Seq::empty(),
            }),
    {
        let state = MultisigState {
            admin: None,
            registry: SignerRegistry::new(),
            store: PendingTransactionStore::new(),
            ledger: Ledger::new(),
            events: Vec::new(),
        };
        assert(events_of(state.events@) =~= Seq::empty());
        state
    }

    /// Collects `event` for publication.
    pub fn emit(&mut self, event: MultisigEvent)
        ensures
            final(self)@ == (StateView { events: old(self)@.events.push(event@), ..old(self)@ }),
            final(self).registry == old(self).registry,
            final(self).store == old(self).store,
            final(self).ledger == old(self).ledger,
            final(self).admin == old(self).admin,
    {
        self.events.push(event);
        assert(events_of(self.events@) =~= events_of(old(self).events@).push(event@));
    }

    /// Hands out the collected events, oldest first, and forgets them.
    pub fn take_events(&mut self) -> (events: Vec<MultisigEvent>)
        ensures
            events_of(events@) == old(self)@.events,
            final(self)@ == (StateView { events: Seq::empty(), ..old(self)@ }),
            final(self).registry == old(self).registry,
            final(self).store == old(self).store,
            final(self).ledger == old(self).ledger,
            final(self).admin == old(self).admin,
    {
        let mut events: Vec<MultisigEvent> = Vec::new();
        std::mem::swap(&mut self.events, &mut events);
        assert(events_of(self.events@) =~= Seq::empty());
        events
    }
}

/// The state after `admin` initialized it.
pub open spec fn initialized(s: StateView, admin: Seq<char>) -> StateView {
    StateView {
        admin: Some(admin),
        registry: RegistryView {
            signers: Seq::empty(),
            threshold: 0,
            high_value_threshold: i128::MAX as int,
        },
        ..s
    }
}

/// Makes `admin` the administrator and resets the registry to unconfigured,
/// with the largest amount as high-value threshold.
///
/// Refused with `AlreadyInitialized`, and without effect, when there is an
/// administrator already.
pub fn initialize_state(state: &mut MultisigState, admin: Account) -> (result: Result<(), MultiSigError>)
    requires
        old(state).wf(),
    ensures
        final(state).wf(),
        old(state)@.admin is Some ==> final(state)@ == old(state)@ && result == Err::<(), MultiSigError>(
            MultiSigError::AlreadyInitialized,
        ),
        old(state)@.admin is None ==> final(state)@ == initialized(old(state)@, admin@) && result is Ok,
{
    if state.admin.is_some() {
        return Err(MultiSigError::AlreadyInitialized);
    }
    state.admin = Some(admin);
    state.registry = SignerRegistry::new();
    Ok(())
}

/// The administrator; `NotInitialized` before initialization.
pub fn get_admin(state: &MultisigState) -> (result: Result<Account, MultiSigError>)
    ensures
        match state@.admin {
            Some(admin) => result is Ok && result->Ok_0@ == admin,
            None => result == Err::<Account, MultiSigError>(MultiSigError::NotInitialized),
        },
{
    match &state.admin {
        Some(admin) => Ok(admin.clone()),
        None => Err(MultiSigError::NotInitialized),
    }
}

/// Why `caller` may not administer the state, if it may not. `authorized`
/// is the host's word on whether the caller of the operation has
/// authenticated as `caller`.
pub open spec fn admin_error(s: StateView, caller: Seq<char>, authorized: bool) -> Option<MultiSigError> {
    if !authorized {
        Some(MultiSigError::Unauthorized)
    } else {
        match s.admin {
            None => Some(MultiSigError::NotInitialized),
            Some(admin) => if admin == caller {
                None
            } else {
                Some(MultiSigError::Unauthorized)
            },
        }
    }
}

/// Checks that the caller has authenticated as `caller` and that `caller`
/// is the administrator: `Unauthorized` where it has not, `NotInitialized`
/// where there is no administrator, `Unauthorized` where it is another
/// account.
pub fn require_admin(state: &MultisigState, caller: &Account, authorized: bool) -> (result: Result<
    (),
    MultiSigError,
>)
    ensures
        match admin_error(state@, caller@, authorized) {
            Some(e) => result == Err::<(), MultiSigError>(e),
            None => result is Ok,
        },
{
    if !authorized {
        return Err(MultiSigError::Unauthorized);
    }
    match &state.admin {
        None => Err(MultiSigError::NotInitialized),
        Some(admin) => {
            if admin.same(caller) {
                Ok(())
            } else {
                Err(MultiSigError::Unauthorized)
            }
        },
    }
}

/// Why `set_signers` is refused, if it is: the caller's standing comes
/// first, the configuration second.
pub open spec fn set_signers_error(
    s: StateView,
    caller: Seq<char>,
    authorized: bool,
    signers: Seq<Seq<char>>,
    threshold: nat,
) -> Option<MultiSigError> {
    match admin_error(s, caller, authorized) {
        Some(e) => Some(e),
        None => config_error(signers, threshold),
    }
}

/// Replaces the signer list and the threshold on behalf of the
/// administrator, both or neither.
pub fn set_signers(
    state: &mut MultisigState,
    caller: Account,
    authorized: bool,
    signers: Vec<Account>,
    threshold: u32,
) -> (result: Result<(), MultiSigError>)
    requires
        old(state).wf(),
    ensures
        final(state).wf(),
        match set_signers_error(old(state)@, caller@, authorized, names_of(signers@), threshold as nat) {
            Some(e) => result == Err::<(), MultiSigError>(e) && final(state)@ == old(state)@,
            None => result is Ok && final(state)@ == (StateView {
                registry: RegistryView {
                    signers: names_of(signers@),
                    threshold: threshold as nat,
                    high_value_threshold: old(state)@.registry.high_value_threshold,
                },
                ..old(state)@
            }),
        },
{
    match require_admin(state, &caller, authorized) {
        Err(e) => Err(e),
        Ok(()) => state.registry.configure(signers, threshold),
    }
}

/// Why `set_high_value_threshold` is refused, if it is.
pub open spec fn set_threshold_error(s: StateView, caller: Seq<char>, authorized: bool, amount: int) -> Option<
    MultiSigError,
> {
    match admin_error(s, caller, authorized) {
        Some(e) => Some(e),
        None => if amount < 0 {
            Some(MultiSigError::InvalidAmount)
        } else {
            None
        },
    }
}

/// Replaces the high-value threshold on behalf of the administrator.
pub fn set_high_value_threshold(
    state: &mut MultisigState,
    caller: Account,
    authorized: bool,
    amount: i128,
) -> (result: Result<(), MultiSigError>)
    requires
        old(state).wf(),
    ensures
        final(state).wf(),
        match set_threshold_error(old(state)@, caller@, authorized, amount as int) {
            Some(e) => result == Err::<(), MultiSigError>(e) && final(state)@ == old(state)@,
            None => result is Ok && final(state)@ == (StateView {
                registry: RegistryView { high_value_threshold: amount as int, ..old(state)@.registry },
                ..old(state)@
            }),
        },
{
    match require_admin(state, &caller, authorized) {
        Err(e) => Err(e),
        Ok(()) => state.registry.set_high_value_threshold(amount),
    }
}

/// The signers, in the order they were configured.
pub fn get_signers(state: &MultisigState) -> (signers: Vec<Account>)
    ensures
        names_of(signers@) == state@.registry.signers,
{
    state.registry.signers()
}

/// The approval threshold; zero while unconfigured.
pub fn get_threshold(state: &MultisigState) -> (threshold: u32)
    ensures
        threshold == state@.registry.threshold,
{
    state.registry.threshold()
}

/// The high-value threshold.
pub fn get_high_value_threshold(state: &MultisigState) -> (amount: i128)
    ensures
        amount == state@.registry.high_value_threshold,
{
    state.registry.high_value_threshold()
}

/// `MultisigNotConfigured` unless a quorum can be formed.
pub fn ensure_multisig_configured(state: &MultisigState) -> (result: Result<(), MultiSigError>)
    ensures
        quorum_configured(state@.registry.signers, state@.registry.threshold) ==> result is Ok,
        !quorum_configured(state@.registry.signers, state@.registry.threshold) ==> result == Err::<
            (),
            MultiSigError,
        >(MultiSigError::MultisigNotConfigured),
{
    state.registry.ensure_configured()
}

/// `UnauthorizedSigner` unless `signer` is one of the signers.
pub fn require_signer(state: &MultisigState, signer: &Account) -> (result: Result<(), MultiSigError>)
    ensures
        state@.registry.signers.contains(signer@) ==> result is Ok,
        !state@.registry.signers.contains(signer@) ==> result == Err::<(), MultiSigError>(
            MultiSigError::UnauthorizedSigner,
        ),
{
    state.registry.require_signer(signer)
}

/// Whether `signer` is one of the signers.
pub fn is_signer(state: &MultisigState, signer: &Account) -> (found: bool)
    ensures
        found == state@.registry.signers.contains(signer@),
{
    state.registry.is_signer(signer)
}

/// Issues the next transaction id: one more than the last, starting at 1.
/// Refused with `Overflow`, and without effect, when the ids are used up.
pub fn next_tx_id(state: &mut MultisigState) -> (result: Result<u64, MultiSigError>)
    requires
        old(state).wf(),
    ensures
        final(state).wf(),
        old(state)@.store.last_id < u64::MAX ==> result == Ok::<u64, MultiSigError>(
            (old(state)@.store.last_id + 1) as u64,
        ) && final(state)@ == (StateView {
            store: StoreView { last_id: old(state)@.store.last_id + 1, ..old(state)@.store },
            ..old(state)@
        }),
        old(state)@.store.last_id >= u64::MAX ==> result == Err::<u64, MultiSigError>(
            MultiSigError::Overflow,
        ) && final(state)@ == old(state)@,
{
    state.store.next_id()
}

/// Whether `signer` has approved the transaction under `tx_id`.
pub fn has_approval(state: &MultisigState, tx_id: u64, signer: &Account) -> (approved: bool)
    ensures
        approved == approved_in(state@.store, tx_id, signer@),
{
    state.store.has_approval(tx_id, signer)
}

/// The number of approvals of the transaction under `tx_id`: the number of
/// distinct signers who approved it, zero where nothing is stored.
pub fn get_approval_count(state: &MultisigState, tx_id: u64) -> (count: u32)
    requires
        state.wf(),
    ensures
        count == count_in(state@.store, tx_id),
{
    state.store.approval_count(tx_id)
}

/// Puts the mark of `signer` on the transaction under `tx_id` and returns
/// the new approval count. Refused as `mark_error` says, without effect.
pub fn record_approval(state: &mut MultisigState, tx_id: u64, signer: &Account) -> (result: Result<
    u32,
    MultiSigError,
>)
    requires
        old(state).wf(),
    ensures
        final(state).wf(),
        match mark_error(old(state)@.store, tx_id, signer@) {
            Some(e) => result == Err::<u32, MultiSigError>(e) && final(state)@ == old(state)@,
            None => result == Ok::<u32, MultiSigError>((count_in(old(state)@.store, tx_id) + 1) as u32)
                && final(state)@ == (StateView {
                store: with_mark(old(state)@.store, tx_id, signer@),
                ..old(state)@
            }),
        },
{
    state.store.record_approval(tx_id, signer)
}

} // verus!
