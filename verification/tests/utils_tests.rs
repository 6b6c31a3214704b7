use stellarspend::account::Account;
use stellarspend::errors::{ErrorHelpers, StellarSpendError};
use stellarspend::utils::{
    safe_add, safe_div, safe_mul, safe_sub, validate_amount, validate_amount_min, validate_amount_range,
    ContractUtils, ErrorEvent,
};

#[test]
fn test_validate_amount_macro() {
    // Test valid amount
    assert!(validate_amount(100i128).is_ok());

    // Test invalid amount (zero)
    assert!(validate_amount(0i128).is_err());

    // Test amount too large
    assert!(validate_amount(i128::MAX).is_err());

    // Test amount with min/max bounds
    assert!(validate_amount_range(50i128, 10i128, 100i128).is_ok());

    assert!(validate_amount_range(5i128, 10i128, 100i128).is_err());

    assert_eq!(validate_amount(0), Err(StellarSpendError::InvalidAmount));
    assert_eq!(validate_amount(-100), Err(StellarSpendError::InvalidAmount));
    assert_eq!(validate_amount(i128::MAX / 2), Ok(()));
    assert_eq!(validate_amount(i128::MAX / 2 + 1), Err(StellarSpendError::AmountTooLarge));
    assert_eq!(validate_amount_min(5, 10), Err(StellarSpendError::AmountTooSmall));
    assert_eq!(validate_amount_min(-5, -10), Err(StellarSpendError::InvalidAmount));
    assert_eq!(validate_amount_min(i128::MAX, 10), Err(StellarSpendError::AmountTooLarge));
    assert_eq!(validate_amount_min(10, 10), Ok(()));
    assert_eq!(validate_amount_range(5, 10, 100), Err(StellarSpendError::AmountTooSmall));
    assert_eq!(validate_amount_range(101, 10, 100), Err(StellarSpendError::AmountTooLarge));
    assert_eq!(validate_amount_range(0, -10, 100), Err(StellarSpendError::InvalidAmount));
    assert_eq!(validate_amount_range(100, 10, 100), Ok(()));
    // With bounds of its own an amount may pass half of the largest.
    assert_eq!(validate_amount_range(i128::MAX, 1, i128::MAX), Ok(()));
}

#[test]
fn test_safe_arithmetic_macros() {
    // Test safe addition
    let result = safe_add(100i128, 50i128).unwrap();
    assert_eq!(result, 150i128);

    // Test safe subtraction
    let result2 = safe_sub(100i128, 50i128).unwrap();
    assert_eq!(result2, 50i128);

    // Test safe multiplication
    let result3 = safe_mul(10i128, 5i128).unwrap();
    assert_eq!(result3, 50i128);

    // Test safe division
    let result4 = safe_div(100i128, 5i128).unwrap();
    assert_eq!(result4, 20i128);

    // Test division by zero
    let result5 = safe_div(100i128, 0i128);
    assert!(result5.is_err());

    assert_eq!(safe_div(0, 0), Err(StellarSpendError::DivisionByZero));
    assert_eq!(safe_div(i128::MIN, -1), Err(StellarSpendError::InvalidCalculation));
    assert_eq!(safe_div(i128::MIN, 1), Ok(i128::MIN));
    assert_eq!(safe_div(i128::MAX, -1), Ok(-i128::MAX));
    assert_eq!(safe_div(7, 2), Ok(3));
    assert_eq!(safe_div(-7, 2), Ok(-3));
    assert_eq!(safe_div(7, -2), Ok(-3));
    assert_eq!(safe_div(-7, -2), Ok(3));
    assert_eq!(safe_add(i128::MAX, 1), Err(StellarSpendError::Overflow));
    assert_eq!(safe_add(i128::MIN, -1), Err(StellarSpendError::Overflow));
    assert_eq!(safe_add(i128::MAX, i128::MIN), Ok(-1));
    assert_eq!(safe_sub(i128::MIN, 1), Err(StellarSpendError::Underflow));
    assert_eq!(safe_sub(0, i128::MIN), Err(StellarSpendError::Underflow));
    assert_eq!(safe_sub(-1, i128::MAX), Ok(i128::MIN));
    assert_eq!(safe_mul(i128::MAX, 2), Err(StellarSpendError::Overflow));
    assert_eq!(safe_mul(i128::MIN, -1), Err(StellarSpendError::Overflow));
    assert_eq!(safe_mul(i128::MIN, 1), Ok(i128::MIN));
    assert_eq!(safe_mul(-3, 7), Ok(-21));
}

#[test]
fn test_error_context_creation() {
    let parameters = vec![String::from("param1"), String::from("param2")];

    let additional_info = vec![(String::from("key1"), String::from("value1"))];

    let context = ErrorHelpers::create_context(
        1100,
        "TestContract",
        "test_function",
        parameters.clone(),
        additional_info.clone(),
        1_700_000_000,
    );

    assert_eq!(context.error_code, 1100);
    assert_eq!(context.contract_name, String::from("TestContract"));
    assert_eq!(context.function_name, String::from("test_function"));
    assert_eq!(context.parameters, parameters);
    assert_eq!(context.additional_info, additional_info);
    assert_eq!(context.timestamp, 1_700_000_000);
}

#[test]
fn test_comprehensive_error_scenario() {
    let admin: Option<Account> = None;
    let user = Account::new("user");
    let mut utils = ContractUtils::new();
    let mut events: Vec<ErrorEvent> = Vec::new();

    // Simulate a complex error scenario
    let mut error_count = 0u32;

    // 1. Try to use uninitialized contract
    let result1 = ContractUtils::get_admin(&admin);
    if result1.is_err() {
        error_count += 1;
        events.push(ContractUtils::emit_error_event(StellarSpendError::NotInitialized, 1));
    }

    // 2. Try invalid operation
    let result2 = validate_amount(-100i128);
    if result2.is_err() {
        error_count += 1;
        events.push(ContractUtils::emit_error_event(StellarSpendError::NegativeAmount, 2));
    }

    // 3. Try rate limited operation
    let result3 = utils.check_rate_limit(&user, "test", 1, 60, 3);
    if result3.is_ok() {
        // First operation succeeds
        let result4 = utils.check_rate_limit(&user, "test", 1, 60, 3);
        if result4.is_err() {
            error_count += 1;
            events.push(ContractUtils::emit_error_event(StellarSpendError::RateLimitExceeded, 3));
        }
    }

    // Verify error count and event emission
    assert!(error_count >= 2);
    assert_eq!(error_count, 3);

    let error_events = events.len();

    assert!(error_events >= 2);
    assert_eq!(
        events,
        vec![
            ErrorEvent { code: 1000, category: 1000, severity: 0, timestamp: 1 },
            ErrorEvent { code: 1404, category: 1400, severity: 0, timestamp: 2 },
            ErrorEvent { code: 1503, category: 1500, severity: 2, timestamp: 3 },
        ]
    );
}
