use stellarspend::account::Account;
use stellarspend::pausable::{PausableContract, PausableError, PauseEvent};

// A host turns a refusal into a failure of the whole call.
fn must<T>(result: Result<T, PausableError>) -> T {
    match result {
        Ok(value) => value,
        Err(e) => panic!("Error(Contract, #{})", e.code()),
    }
}

fn create_pausable_contract() -> (PausableContract, Account) {
    let mut contract = PausableContract::new();
    let admin = Account::new("admin");
    contract.initialize(admin.clone()).unwrap();
    (contract, admin)
}

fn setup_contract() -> (PausableContract, Account) {
    create_pausable_contract()
}

fn critical_operation(contract: &PausableContract, value: i128) -> i128 {
    must(contract.require_not_paused());
    value * 2
}

fn has_event(events: &[PauseEvent], first: &str, second: &str) -> bool {
    events.iter().any(|e| e.topics() == (first, second))
}

#[test]
fn test_initialize_contract() {
    let admin = Account::new("admin");
    let mut client = PausableContract::new();

    client.initialize(admin.clone()).unwrap();

    assert_eq!(client.get_admin().unwrap(), admin);
    assert_eq!(client.is_paused(), false);
}

#[test]
#[should_panic(expected = "Contract already initialized")]
fn test_cannot_initialize_twice() {
    let admin = Account::new("admin");
    let mut client = PausableContract::new();

    client.initialize(admin.clone()).unwrap();
    client.initialize(admin).unwrap();
}

#[test]
fn test_pause_contract() {
    let (mut client, admin) = create_pausable_contract();

    assert_eq!(client.is_paused(), false);

    must(client.pause(admin));

    assert_eq!(client.is_paused(), true);
}

#[test]
#[should_panic(expected = "Error(Contract, #3)")]
fn test_pause_already_paused() {
    let (mut client, admin) = create_pausable_contract();

    must(client.pause(admin.clone()));
    must(client.pause(admin)); // Should panic
}

#[test]
fn test_unpause_contract() {
    let (mut client, admin) = create_pausable_contract();

    must(client.pause(admin.clone()));
    assert_eq!(client.is_paused(), true);

    must(client.unpause(admin));
    assert_eq!(client.is_paused(), false);
}

#[test]
#[should_panic(expected = "Error(Contract, #4)")]
fn test_unpause_not_paused() {
    let (mut client, admin) = create_pausable_contract();

    must(client.unpause(admin)); // Should panic
}

#[test]
#[should_panic(expected = "Error(Contract, #2)")]
fn test_pause_unauthorized() {
    let (mut client, _admin) = create_pausable_contract();
    let unauthorized = Account::new("unauthorized");

    must(client.pause(unauthorized)); // Should panic
}

#[test]
#[should_panic(expected = "Error(Contract, #2)")]
fn test_unpause_unauthorized() {
    let (mut client, admin) = create_pausable_contract();
    let unauthorized = Account::new("unauthorized");

    must(client.pause(admin));
    must(client.unpause(unauthorized)); // Should panic
}

#[test]
fn test_set_admin() {
    let (mut client, admin) = create_pausable_contract();
    let new_admin = Account::new("new_admin");

    must(client.set_admin(admin, new_admin.clone()));

    assert_eq!(client.get_admin().unwrap(), new_admin);
}

#[test]
#[should_panic(expected = "Error(Contract, #2)")]
fn test_set_admin_unauthorized() {
    let (mut client, _admin) = create_pausable_contract();
    let unauthorized = Account::new("unauthorized");
    let new_admin = Account::new("new_admin");

    must(client.set_admin(unauthorized, new_admin)); // Should panic
}

#[test]
fn test_pause_unpause_events() {
    let (mut client, admin) = create_pausable_contract();

    must(client.pause(admin.clone()));

    let events = client.take_events();
    assert!(has_event(&events, "pausable", "paused"));

    must(client.unpause(admin));

    let events = client.take_events();
    assert!(has_event(&events, "pausable", "unpaused"));
}

#[test]
fn test_admin_changed_event() {
    let (mut client, admin) = create_pausable_contract();
    let new_admin = Account::new("new_admin");

    must(client.set_admin(admin, new_admin));

    let events = client.take_events();
    assert!(has_event(&events, "pausable", "admin_changed"));
}

#[test]
fn test_multiple_pause_unpause_cycles() {
    let (mut client, admin) = create_pausable_contract();

    for _ in 0..3 {
        must(client.pause(admin.clone()));
        assert_eq!(client.is_paused(), true);

        must(client.unpause(admin.clone()));
        assert_eq!(client.is_paused(), false);
    }
}

#[test]
fn test_initialize_sets_admin_and_unpaused_state() {
    let (client, admin) = setup_contract();

    assert_eq!(client.get_admin().unwrap(), admin);
    assert_eq!(client.is_paused(), false);
}

#[test]
#[should_panic(expected = "Contract already initialized")]
fn pause_tests_test_cannot_initialize_twice() {
    let (mut client, admin) = setup_contract();
    client.initialize(admin).unwrap();
}

#[test]
fn test_admin_can_pause_contract() {
    let (mut client, admin) = setup_contract();

    must(client.pause(admin));

    assert_eq!(client.is_paused(), true);
}

#[test]
#[should_panic(expected = "Error(Contract, #2)")]
fn test_non_admin_cannot_pause() {
    let (mut client, _admin) = setup_contract();
    let non_admin = Account::new("non_admin");

    must(client.pause(non_admin));
}

#[test]
#[should_panic(expected = "Error(Contract, #3)")]
fn test_cannot_pause_already_paused_contract() {
    let (mut client, admin) = setup_contract();

    must(client.pause(admin.clone()));
    must(client.pause(admin));
}

#[test]
fn test_admin_can_unpause_contract() {
    let (mut client, admin) = setup_contract();

    must(client.pause(admin.clone()));
    assert_eq!(client.is_paused(), true);

    must(client.unpause(admin));
    assert_eq!(client.is_paused(), false);
}

#[test]
#[should_panic(expected = "Error(Contract, #2)")]
fn test_non_admin_cannot_unpause() {
    let (mut client, admin) = setup_contract();
    let non_admin = Account::new("non_admin");

    must(client.pause(admin));
    must(client.unpause(non_admin));
}

#[test]
#[should_panic(expected = "Error(Contract, #4)")]
fn test_cannot_unpause_not_paused_contract() {
    let (mut client, admin) = setup_contract();

    must(client.unpause(admin));
}

#[test]
fn test_critical_function_works_when_not_paused() {
    let (client, _admin) = setup_contract();

    let result = critical_operation(&client, 100);
    assert_eq!(result, 200);
}

#[test]
#[should_panic(expected = "Error(Contract, #3)")]
fn test_critical_function_blocked_when_paused() {
    let (mut client, admin) = setup_contract();

    must(client.pause(admin));
    critical_operation(&client, 100);
}

#[test]
fn test_critical_function_works_after_unpause() {
    let (mut client, admin) = setup_contract();

    must(client.pause(admin.clone()));
    must(client.unpause(admin));

    let result = critical_operation(&client, 100);
    assert_eq!(result, 200);
}

#[test]
fn test_pause_emits_event() {
    let (mut client, admin) = setup_contract();

    must(client.pause(admin));

    let events = client.take_events();
    assert!(has_event(&events, "pausable", "paused"));
}

#[test]
fn test_unpause_emits_event() {
    let (mut client, admin) = setup_contract();

    must(client.pause(admin.clone()));
    must(client.unpause(admin));

    let events = client.take_events();
    assert!(has_event(&events, "pausable", "unpaused"));
}

#[test]
fn test_admin_can_transfer_admin_role() {
    let (mut client, admin) = setup_contract();
    let new_admin = Account::new("new_admin");

    must(client.set_admin(admin, new_admin.clone()));

    assert_eq!(client.get_admin().unwrap(), new_admin);
}

#[test]
fn test_new_admin_can_pause() {
    let (mut client, admin) = setup_contract();
    let new_admin = Account::new("new_admin");

    must(client.set_admin(admin, new_admin.clone()));
    must(client.pause(new_admin));

    assert_eq!(client.is_paused(), true);
}

#[test]
#[should_panic(expected = "Error(Contract, #2)")]
fn test_old_admin_cannot_pause_after_transfer() {
    let (mut client, admin) = setup_contract();
    let new_admin = Account::new("new_admin");

    must(client.set_admin(admin.clone(), new_admin));
    must(client.pause(admin));
}

#[test]
fn pause_tests_test_multiple_pause_unpause_cycles() {
    let (mut client, admin) = setup_contract();

    for i in 0..5 {
        must(client.pause(admin.clone()));
        assert_eq!(client.is_paused(), true, "Failed at cycle {}", i);

        must(client.unpause(admin.clone()));
        assert_eq!(client.is_paused(), false, "Failed at cycle {}", i);
    }
}

#[test]
fn test_is_paused_returns_false_for_new_contract() {
    let (client, _admin) = setup_contract();

    assert_eq!(client.is_paused(), false);
}

#[test]
fn test_pause_state_persists_across_calls() {
    let (mut client, admin) = setup_contract();

    must(client.pause(admin));

    // Multiple checks should all return true
    assert_eq!(client.is_paused(), true);
    assert_eq!(client.is_paused(), true);
    assert_eq!(client.is_paused(), true);
}

#[test]
fn test_admin_changed_event_emitted() {
    let (mut client, admin) = setup_contract();
    let new_admin = Account::new("new_admin");

    must(client.set_admin(admin, new_admin));

    let events = client.take_events();
    assert!(has_event(&events, "pausable", "admin_changed"));
}

#[test]
fn pausable_refusals_are_exact_and_change_nothing() {
    let mut contract = PausableContract::new();
    let admin = Account::new("admin");
    let other = Account::new("other");
    assert_eq!(contract.pause(admin.clone()), Err(PausableError::NotInitialized));
    assert_eq!(contract.get_admin(), Err("Contract not initialized"));
    assert_eq!(contract.initialize(admin.clone()), Ok(()));
    assert_eq!(contract.initialize(other.clone()), Err("Contract already initialized"));
    assert_eq!(contract.get_admin(), Ok(admin.clone()));
    assert_eq!(contract.pause(other.clone()), Err(PausableError::Unauthorized));
    assert_eq!(contract.unpause(admin.clone()), Err(PausableError::ContractNotPaused));
    assert_eq!(contract.require_not_paused(), Ok(()));
    assert_eq!(contract.pause(admin.clone()), Ok(()));
    assert_eq!(contract.pause(admin.clone()), Err(PausableError::ContractPaused));
    assert_eq!(contract.require_not_paused(), Err(PausableError::ContractPaused));
    assert_eq!(contract.set_admin(other.clone(), other.clone()), Err(PausableError::Unauthorized));
    assert!(contract.is_paused());
    assert_eq!(
        contract.take_events(),
        vec![PauseEvent::Initialized { admin: admin.clone() }, PauseEvent::Paused { by: admin }]
    );
    assert_eq!(PausableError::NotInitialized.code(), 1);
    assert_eq!(PausableError::ContractNotPaused.code(), 4);
}
