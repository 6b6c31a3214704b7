use stellarspend::account::Account;
use stellarspend::keyed_map::{KeyedMap, NumberedKey};
use stellarspend::ledger::Ledger;
use stellarspend::multisig::{
    ensure_multisig_configured, get_admin, get_approval_count, get_high_value_threshold, get_signers,
    get_threshold, has_approval, initialize_state, is_signer, next_tx_id, record_approval, require_admin,
    require_signer, set_high_value_threshold, set_signers, MultiSigError, MultisigEvents, MultisigState,
};
use stellarspend::pending::{PendingTransactionStore, PendingTx, StoredRecord};
use stellarspend::registry::{validate_signer_config, SignerRegistry};

fn acct(name: &str) -> Account {
    Account::new(name)
}

#[test]
fn ledger_debit_and_credit() {
    let mut ledger = Ledger::new();
    let a = acct("a");
    assert_eq!(ledger.balance_of(&a), 0);
    assert_eq!(ledger.credit(&a, 100), Ok(100));
    assert_eq!(ledger.debit(&a, 30), Ok(70));
    assert_eq!(ledger.debit(&a, 71), Err(MultiSigError::InsufficientBalance));
    assert_eq!(ledger.balance_of(&a), 70);
    assert_eq!(ledger.debit(&a, 70), Ok(0));
    assert_eq!(ledger.debit(&acct("unknown"), 0), Ok(0));
    assert_eq!(ledger.debit(&acct("unknown"), 1), Err(MultiSigError::InsufficientBalance));
    assert_eq!(ledger.credit(&a, i128::MAX), Ok(i128::MAX));
    assert_eq!(ledger.credit(&a, 1), Err(MultiSigError::Overflow));
    assert_eq!(ledger.balance_of(&a), i128::MAX);
    // A negative debit adds, and is held to the same range.
    assert_eq!(ledger.debit(&a, -1), Err(MultiSigError::Overflow));
    assert_eq!(ledger.debit(&acct("b"), -5), Ok(5));
    assert_eq!(ledger.credit(&acct("b"), -6), Ok(-1));
    assert_eq!(ledger.credit(&acct("c"), i128::MIN), Ok(i128::MIN));
    assert_eq!(ledger.credit(&acct("c"), -1), Err(MultiSigError::Overflow));
}

#[test]
fn ledger_transfer_is_all_or_nothing() {
    let mut ledger = Ledger::new();
    let a = acct("a");
    let b = acct("b");
    ledger.set_balance(&a, 100);
    ledger.set_balance(&b, i128::MAX - 10);
    assert_eq!(ledger.check_transfer(&a, &b, 10), Ok(()));
    assert_eq!(ledger.check_transfer(&a, &b, 11), Err(MultiSigError::Overflow));
    assert_eq!(ledger.transfer(&a, &b, 11), Err(MultiSigError::Overflow));
    assert_eq!(ledger.balance_of(&a), 100);
    assert_eq!(ledger.balance_of(&b), i128::MAX - 10);
    assert_eq!(ledger.transfer(&a, &b, 101), Err(MultiSigError::InsufficientBalance));
    assert_eq!(ledger.transfer(&a, &b, 10), Ok(()));
    assert_eq!(ledger.balance_of(&a), 90);
    assert_eq!(ledger.balance_of(&b), i128::MAX);
    // To oneself: the balance stays, even at the top of the range.
    assert_eq!(ledger.transfer(&b, &b, 5), Ok(()));
    assert_eq!(ledger.balance_of(&b), i128::MAX);
    assert_eq!(ledger.transfer(&a, &a, 91), Err(MultiSigError::InsufficientBalance));
    assert_eq!(ledger.transfer(&a, &acct("c"), 0), Ok(()));
    assert_eq!(ledger.balance_of(&acct("c")), 0);
}

#[test]
fn registry_configuration_rules() {
    let signers = |names: &[&str]| names.iter().map(|n| acct(n)).collect::<Vec<Account>>();
    assert_eq!(validate_signer_config(&signers(&[]), 0), Err(MultiSigError::InvalidThreshold));
    assert_eq!(validate_signer_config(&signers(&[]), 1), Err(MultiSigError::InvalidThreshold));
    assert_eq!(validate_signer_config(&signers(&["a"]), 0), Err(MultiSigError::InvalidThreshold));
    assert_eq!(validate_signer_config(&signers(&["a"]), 2), Err(MultiSigError::InvalidThreshold));
    // The threshold is looked at before the signers.
    assert_eq!(validate_signer_config(&signers(&["a", "a"]), 3), Err(MultiSigError::InvalidThreshold));
    assert_eq!(validate_signer_config(&signers(&["a", "a"]), 2), Err(MultiSigError::DuplicateSigner));
    assert_eq!(validate_signer_config(&signers(&["a", "b", "c", "b"]), 1), Err(MultiSigError::DuplicateSigner));
    assert_eq!(validate_signer_config(&signers(&["a", "b", "c"]), 1), Ok(()));
    assert_eq!(validate_signer_config(&signers(&["a", "b", "c"]), 3), Ok(()));

    let registry = SignerRegistry::new();
    assert_eq!(registry.threshold(), 0);
    assert!(registry.signers().is_empty());
    assert_eq!(registry.high_value_threshold(), i128::MAX);
    assert_eq!(registry.ensure_configured(), Err(MultiSigError::MultisigNotConfigured));
    assert!(!registry.is_signer(&acct("a")));

    let mut state = MultisigState::new();
    let admin = acct("admin");
    initialize_state(&mut state, admin.clone()).unwrap();
    assert_eq!(set_signers(&mut state, admin.clone(), true, signers(&["a", "b"]), 2), Ok(()));
    assert_eq!(state.registry.ensure_configured(), Ok(()));
    assert!(state.registry.is_signer(&acct("b")));
    assert_eq!(state.registry.require_signer(&acct("b")), Ok(()));
    assert_eq!(state.registry.require_signer(&acct("c")), Err(MultiSigError::UnauthorizedSigner));
    // A refused configuration leaves the one before.
    assert_eq!(
        set_signers(&mut state, admin.clone(), true, signers(&["c", "c"]), 1),
        Err(MultiSigError::DuplicateSigner)
    );
    assert_eq!(state.registry.signers(), signers(&["a", "b"]));
    assert_eq!(state.registry.threshold(), 2);
    // An accepted one replaces list and threshold together.
    assert_eq!(set_signers(&mut state, admin.clone(), true, signers(&["c"]), 1), Ok(()));
    assert_eq!(state.registry.signers(), signers(&["c"]));
    assert!(!state.registry.is_signer(&acct("a")));
    assert_eq!(
        set_high_value_threshold(&mut state, admin.clone(), true, -1),
        Err(MultiSigError::InvalidAmount)
    );
    assert_eq!(set_high_value_threshold(&mut state, admin, true, 0), Ok(()));
    assert_eq!(state.registry.high_value_threshold(), 0);
}

fn sample_tx(id: u64) -> PendingTx {
    PendingTx {
        id,
        from: acct("from"),
        to: acct("to"),
        amount: 500,
        payload: String::from("pay"),
        asset: None,
        created_at: 9,
        executed: true,
    }
}

#[test]
fn store_issues_ids_and_keeps_records() {
    let mut store = PendingTransactionStore::new();
    assert_eq!(store.last_id(), 0);
    assert_eq!(store.get(1), None);
    assert_eq!(store.next_id(), Ok(1));
    assert_eq!(store.next_id(), Ok(2));
    assert_eq!(store.last_id(), 2);
    // A record is stored under the id it is created with, as not executed.
    store.create(2, sample_tx(77));
    let tx = store.get(2).unwrap();
    assert_eq!(tx.id, 2);
    assert!(!tx.executed);
    assert_eq!(tx.amount, 500);
    assert_eq!(store.approval_count(2), 0);
    assert_eq!(store.approval_count(1), 0);
    assert_eq!(store.record_approval(1, &acct("s")), Err(MultiSigError::PendingTxNotFound));
    assert_eq!(store.record_approval(2, &acct("s")), Ok(1));
    assert_eq!(store.record_approval(2, &acct("s")), Err(MultiSigError::DuplicateApproval));
    assert_eq!(store.record_approval(2, &acct("t")), Ok(2));
    assert!(store.has_approval(2, &acct("t")));
    assert!(!store.has_approval(2, &acct("u")));
    assert!(!store.has_approval(1, &acct("t")));
    assert_eq!(store.approvers(2), vec![acct("s"), acct("t")]);
    assert!(store.approvers(1).is_empty());
    assert_eq!(store.mark_executed(1), Err(MultiSigError::PendingTxNotFound));
    assert_eq!(store.mark_executed(2), Ok(()));
    assert!(store.get(2).unwrap().executed);
    assert_eq!(store.approval_count(2), 2);
    assert_eq!(store.next_id(), Ok(3));
}

#[test]
fn store_refuses_ids_beyond_the_last() {
    let record = |id: u64, approvers: &[&str]| StoredRecord {
        tx: sample_tx(id),
        approvers: approvers.iter().map(|n| acct(n)).collect(),
    };
    let mut store = PendingTransactionStore::restore(u64::MAX, vec![record(u64::MAX, &["a"])]).unwrap();
    assert_eq!(store.next_id(), Err(MultiSigError::Overflow));
    assert_eq!(store.last_id(), u64::MAX);
    assert_eq!(store.approval_count(u64::MAX), 1);
    assert!(store.get(u64::MAX).unwrap().executed);

    assert!(PendingTransactionStore::restore(0, vec![]).is_some());
    assert!(PendingTransactionStore::restore(3, vec![record(1, &[]), record(3, &["a", "b"])]).is_some());
    // An id that was never issued.
    assert!(PendingTransactionStore::restore(3, vec![record(4, &[])]).is_none());
    assert!(PendingTransactionStore::restore(3, vec![record(0, &[])]).is_none());
    // Two records under one id.
    assert!(PendingTransactionStore::restore(3, vec![record(2, &[]), record(1, &[]), record(2, &[])]).is_none());
    // Two marks of one signer.
    assert!(PendingTransactionStore::restore(3, vec![record(2, &["a", "b", "a"])]).is_none());
}

#[test]
fn state_functions_follow_the_components() {
    let mut state = MultisigState::new();
    let admin = acct("admin");
    assert_eq!(get_admin(&state), Err(MultiSigError::NotInitialized));
    assert_eq!(require_admin(&state, &admin, true), Err(MultiSigError::NotInitialized));
    assert_eq!(initialize_state(&mut state, admin.clone()), Ok(()));
    assert_eq!(initialize_state(&mut state, admin.clone()), Err(MultiSigError::AlreadyInitialized));
    assert_eq!(get_admin(&state), Ok(admin.clone()));
    assert_eq!(require_admin(&state, &admin, true), Ok(()));
    assert_eq!(require_admin(&state, &acct("x"), true), Err(MultiSigError::Unauthorized));
    assert_eq!(get_threshold(&state), 0);
    assert_eq!(get_high_value_threshold(&state), i128::MAX);
    assert!(get_signers(&state).is_empty());
    assert_eq!(ensure_multisig_configured(&state), Err(MultiSigError::MultisigNotConfigured));
    assert_eq!(set_signers(&mut state, admin.clone(), true, vec![acct("s1"), acct("s2")], 1), Ok(()));
    assert_eq!(set_high_value_threshold(&mut state, admin.clone(), true, 10), Ok(()));
    assert_eq!(set_high_value_threshold(&mut state, acct("x"), true, 10), Err(MultiSigError::Unauthorized));
    assert_eq!(ensure_multisig_configured(&state), Ok(()));
    assert!(is_signer(&state, &acct("s2")));
    assert_eq!(require_signer(&state, &acct("s3")), Err(MultiSigError::UnauthorizedSigner));
    assert_eq!(next_tx_id(&mut state), Ok(1));
    state.store.create(1, sample_tx(1));
    assert_eq!(get_approval_count(&state, 1), 0);
    assert_eq!(record_approval(&mut state, 1, &acct("s1")), Ok(1));
    assert_eq!(record_approval(&mut state, 1, &acct("s1")), Err(MultiSigError::DuplicateApproval));
    assert!(has_approval(&state, 1, &acct("s1")));
    assert_eq!(get_approval_count(&state, 1), 1);
    let event = MultisigEvents::approval_recorded(1, &acct("s1"), 1, 1);
    assert_eq!(event.topics(), ("approve", "record"));
    assert_eq!(MultisigEvents::pending_created(&sample_tx(5)).tx_id(), 5);
    assert_eq!(MultisigEvents::transaction_executed(&sample_tx(6), &admin).topics(), ("tx", "executed"));
    state.emit(event);
    assert_eq!(state.take_events().len(), 1);
    assert!(state.take_events().is_empty());
}

#[test]
fn keyed_maps_hold_one_value_for_each_key() {
    let mut by_account: KeyedMap<Account, u32> = KeyedMap::new();
    assert_eq!(by_account.get(&acct("a")), None);
    by_account.insert(&acct("a"), 1);
    by_account.insert(&acct("b"), 2);
    by_account.insert(&acct("a"), 3);
    assert_eq!(by_account.get(&acct("a")), Some(&3));
    assert_eq!(by_account.get(&acct("b")), Some(&2));
    assert!(!by_account.contains_key(&acct("c")));

    let mut by_window: KeyedMap<NumberedKey, u32> = KeyedMap::new();
    by_window.insert(&NumberedKey { account: acct("a"), number: 1 }, 10);
    by_window.insert(&NumberedKey { account: acct("a"), number: 2 }, 20);
    by_window.insert(&NumberedKey { account: acct("b"), number: 1 }, 30);
    assert_eq!(by_window.get(&NumberedKey { account: acct("a"), number: 2 }), Some(&20));
    assert_eq!(by_window.get(&NumberedKey { account: acct("b"), number: 2 }), None);
}
