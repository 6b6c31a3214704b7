use stellarspend::account::Account;
use stellarspend::fees::{FeeError, FeeEvent, FeeEvents, FeesContract};

fn setup_fee_contract() -> (Account, FeesContract) {
    let mut contract = FeesContract::new();
    let admin = Account::new("admin");
    // initialize with 500 bps (5%)
    contract.initialize(admin.clone(), 500u32).unwrap();
    (admin, contract)
}

#[test]
fn test_initialization_and_get() {
    let (_admin, client) = setup_fee_contract();
    assert_eq!(client.get_percentage(), 500u32);
    assert_eq!(client.get_total_collected(), 0i128);
}

#[test]
fn test_set_percentage_unauthorized() {
    let (_admin, mut client) = setup_fee_contract();
    let other = Account::new("other");
    // refused because other is not admin
    let result = client.set_percentage(other, 100u32, 1);
    assert!(result.is_err());
}

#[test]
fn test_calculate_and_deduct_fee() {
    let (_admin, mut client) = setup_fee_contract();
    let payer = Account::new("payer");
    let amount: i128 = 1_000;
    // fee = 1_000 * 500 / 10_000 = 50
    let fee = client.calculate_fee(amount).unwrap();
    assert_eq!(fee, 50);

    // deduct fee via client
    let (net, charged) = client.deduct_fee(payer, amount, 1).unwrap();
    assert_eq!(charged, 50);
    assert_eq!(net, 950);

    // total collected should update
    assert_eq!(client.get_total_collected(), 50);

    // event emitted
    let events = client.take_events();
    assert!(events.iter().any(|e| e.topics().0 == "fee" && e.topics().1 == "deducted"));
}

#[test]
fn test_total_collected_accumulates() {
    let (_admin, mut client) = setup_fee_contract();
    let payer = Account::new("payer");
    client.deduct_fee(payer.clone(), 200, 1).unwrap();
    client.deduct_fee(payer, 800, 2).unwrap();
    // 200*5% =10, 800*5%=40 => total 50
    assert_eq!(client.get_total_collected(), 50);
}

#[test]
fn test_invalid_amount_errors() {
    let (_admin, client) = setup_fee_contract();
    let err = client.calculate_fee(0);
    assert!(err.is_err());
}

#[test]
fn test_update_configuration_emits_event() {
    let (admin, mut client) = setup_fee_contract();
    client.set_percentage(admin, 250u32, 1).unwrap(); // 2.5%
    let events = client.take_events();
    assert!(events.iter().any(|e| e.topics().0 == "fee" && e.topics().1 == "config_updated"));
    assert_eq!(client.get_percentage(), 250u32);
}

#[test]
fn fees_contract_refusals_are_exact() {
    let mut contract = FeesContract::new();
    let admin = Account::new("admin");
    let other = Account::new("other");
    assert_eq!(contract.set_percentage(admin.clone(), 1, 0), Err(FeeError::NotInitialized));
    assert_eq!(contract.initialize(admin.clone(), 10_001), Err(FeeError::InvalidPercentage));
    assert_eq!(contract.initialize(admin.clone(), 10_000), Ok(()));
    assert_eq!(contract.initialize(admin.clone(), 5), Err(FeeError::AlreadyInitialized));
    assert_eq!(contract.set_percentage(other.clone(), 1, 0), Err(FeeError::Unauthorized));
    assert_eq!(contract.set_percentage(admin.clone(), 10_001, 0), Err(FeeError::InvalidPercentage));
    assert_eq!(contract.get_percentage(), 10_000);
    assert_eq!(contract.calculate_fee(-1), Err(FeeError::InvalidAmount));
    assert_eq!(contract.calculate_fee(i128::MAX / 10_000 + 1), Err(FeeError::Overflow));
    assert_eq!(contract.calculate_fee(i128::MAX / 10_000), Ok(i128::MAX / 10_000));
    assert_eq!(contract.deduct_fee(other.clone(), 0, 0), Err(FeeError::InvalidAmount));
    assert!(contract.take_events().is_empty());
    assert_eq!(contract.get_total_collected(), 0);
    assert_eq!(FeeError::Overflow.code(), 6);
}

#[test]
fn fees_are_rounded_down_and_added_up() {
    let (admin, mut contract) = setup_fee_contract();
    let payer = Account::new("payer");
    assert_eq!(contract.calculate_fee(19), Ok(0));
    assert_eq!(contract.calculate_fee(20), Ok(1));
    assert_eq!(contract.calculate_fee(39), Ok(1));
    assert_eq!(contract.deduct_fee(payer.clone(), 39, 11), Ok((38, 1)));
    contract.set_percentage(admin.clone(), 0, 12).unwrap();
    assert_eq!(contract.deduct_fee(payer.clone(), 1_000_000, 13), Ok((1_000_000, 0)));
    assert_eq!(contract.get_total_collected(), 1);
    assert_eq!(
        contract.take_events(),
        vec![
            FeeEvents::fee_deducted(&payer, 39, 1, 11),
            FeeEvents::config_updated(&admin, 0, 12),
            FeeEvent::Deducted { payer, amount: 1_000_000, fee: 0, at: 13 },
        ]
    );
    // The sum collected cannot pass the largest amount.
    contract.total_collected = i128::MAX;
    contract.set_percentage(admin, 10_000, 14).unwrap();
    contract.take_events();
    assert_eq!(contract.deduct_fee(Account::new("p"), 1, 15), Err(FeeError::Overflow));
    assert_eq!(contract.get_total_collected(), i128::MAX);
    assert!(contract.take_events().is_empty());
}
