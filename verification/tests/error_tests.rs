use stellarspend::errors::{
    ErrorCategory, ErrorDocumentation, ErrorHelpers, ErrorSeverity, RetryStrategy, StellarSpendError,
};

#[test]
fn test_error_code_conversion() {
    // Test valid error code conversion
    let error = ErrorDocumentation::code_to_error(1100);
    assert!(error.is_some());
    assert_eq!(error.unwrap(), StellarSpendError::Unauthorized);

    // Test invalid error code
    let invalid_error = ErrorDocumentation::code_to_error(9999);
    assert!(invalid_error.is_none());
}

#[test]
fn test_error_categories() {
    let unauthorized = StellarSpendError::Unauthorized;
    assert_eq!(unauthorized.category(), ErrorCategory::Authorization);

    let insufficient_balance = StellarSpendError::InsufficientBalance;
    assert_eq!(insufficient_balance.category(), ErrorCategory::Balance);

    let overflow = StellarSpendError::Overflow;
    assert_eq!(overflow.category(), ErrorCategory::Arithmetic);

    let not_initialized = StellarSpendError::NotInitialized;
    assert_eq!(not_initialized.category(), ErrorCategory::Initialization);
}

#[test]
fn test_error_severity() {
    let security_violation = StellarSpendError::SecurityViolation;
    assert_eq!(security_violation.severity(), ErrorSeverity::Critical);

    let unauthorized = StellarSpendError::Unauthorized;
    assert_eq!(unauthorized.severity(), ErrorSeverity::High);

    let invalid_input = StellarSpendError::InvalidInput;
    assert_eq!(invalid_input.severity(), ErrorSeverity::Medium);

    let not_found = StellarSpendError::NotFound;
    assert_eq!(not_found.severity(), ErrorSeverity::Low);
}

#[test]
fn test_error_recoverability() {
    let insufficient_balance = StellarSpendError::InsufficientBalance;
    assert!(insufficient_balance.is_recoverable());

    let rate_limit = StellarSpendError::RateLimitExceeded;
    assert!(rate_limit.is_recoverable());

    let security_violation = StellarSpendError::SecurityViolation;
    assert!(!security_violation.is_recoverable());

    let unauthorized = StellarSpendError::Unauthorized;
    assert!(!unauthorized.is_recoverable());
}

#[test]
fn test_retry_delays() {
    let rate_limit = StellarSpendError::RateLimitExceeded;
    assert_eq!(rate_limit.retry_delay(), Some(60));

    let network_error = StellarSpendError::NetworkError;
    assert_eq!(network_error.retry_delay(), Some(30));

    let oracle_unavailable = StellarSpendError::OracleUnavailable;
    assert_eq!(oracle_unavailable.retry_delay(), Some(120));

    let maintenance_mode = StellarSpendError::MaintenanceMode;
    assert_eq!(maintenance_mode.retry_delay(), Some(300));

    let invalid_input = StellarSpendError::InvalidInput;
    assert_eq!(invalid_input.retry_delay(), None);
}

#[test]
fn test_error_logging_decisions() {
    // Critical errors should be logged
    assert!(ErrorHelpers::should_log(2000)); // SecurityViolation
    assert!(ErrorHelpers::should_log(2100)); // SystemError

    // High severity errors should be logged
    assert!(ErrorHelpers::should_log(1100)); // Unauthorized
    assert!(ErrorHelpers::should_log(1400)); // InsufficientBalance
    assert!(ErrorHelpers::should_log(1600)); // Overflow

    // Medium severity errors should be logged
    assert!(ErrorHelpers::should_log(1200)); // InvalidInput
    assert!(ErrorHelpers::should_log(1500)); // LimitExceeded

    // Low severity errors should not be logged
    assert!(!ErrorHelpers::should_log(1300)); // NotFound
    assert!(!ErrorHelpers::should_log(1304)); // Expired
}

#[test]
fn test_retry_strategies() {
    // Immediate retry for transient errors
    assert_eq!(
        ErrorHelpers::retry_strategy(1800), // NetworkError
        RetryStrategy::Immediate
    );
    assert_eq!(
        ErrorHelpers::retry_strategy(1802), // OracleUnavailable
        RetryStrategy::Immediate
    );

    // Exponential backoff for rate limits
    assert_eq!(
        ErrorHelpers::retry_strategy(1503), // RateLimitExceeded
        RetryStrategy::ExponentialBackoff
    );

    // Fixed delay for maintenance
    assert_eq!(
        ErrorHelpers::retry_strategy(2103), // MaintenanceMode
        RetryStrategy::FixedDelay
    );

    // No retry for permanent errors
    assert_eq!(
        ErrorHelpers::retry_strategy(1100), // Unauthorized
        RetryStrategy::NoRetry
    );
    assert_eq!(
        ErrorHelpers::retry_strategy(2000), // SecurityViolation
        RetryStrategy::NoRetry
    );
    assert_eq!(
        ErrorHelpers::retry_strategy(1400), // InsufficientBalance
        RetryStrategy::NoRetry
    );

    // Default to exponential backoff
    assert_eq!(
        ErrorHelpers::retry_strategy(1200), // InvalidInput
        RetryStrategy::ExponentialBackoff
    );
}

#[test]
fn test_error_severity_classification() {
    // Test that critical errors are properly classified
    let critical_errors = vec![
        StellarSpendError::SecurityViolation,
        StellarSpendError::SystemError,
        StellarSpendError::InternalError,
        StellarSpendError::CorruptedData,
    ];

    for error in critical_errors {
        assert_eq!(error.severity(), ErrorSeverity::Critical);
        assert!(!error.is_recoverable());
    }

    // Test that high severity errors are properly classified
    let high_errors = vec![
        StellarSpendError::Unauthorized,
        StellarSpendError::InsufficientBalance,
        StellarSpendError::Overflow,
        StellarSpendError::Underflow,
        StellarSpendError::StorageError,
    ];

    for error in high_errors {
        assert_eq!(error.severity(), ErrorSeverity::High);
    }

    // Test that low severity errors are properly classified
    let low_errors = vec![
        StellarSpendError::NotFound,
        StellarSpendError::Expired,
        StellarSpendError::NotActive,
        StellarSpendError::Paused,
    ];

    for error in low_errors {
        assert_eq!(error.severity(), ErrorSeverity::Low);
    }
}

#[test]
fn test_error_category_classification() {
    // Test initialization errors
    assert_eq!(StellarSpendError::NotInitialized.category(), ErrorCategory::Initialization);
    assert_eq!(StellarSpendError::AlreadyInitialized.category(), ErrorCategory::Initialization);

    // Test authorization errors
    assert_eq!(StellarSpendError::Unauthorized.category(), ErrorCategory::Authorization);
    assert_eq!(StellarSpendError::AdminRequired.category(), ErrorCategory::Authorization);

    // Test validation errors
    assert_eq!(StellarSpendError::InvalidInput.category(), ErrorCategory::Validation);
    assert_eq!(StellarSpendError::InvalidAmount.category(), ErrorCategory::Validation);

    // Test arithmetic errors
    assert_eq!(StellarSpendError::Overflow.category(), ErrorCategory::Arithmetic);
    assert_eq!(StellarSpendError::Underflow.category(), ErrorCategory::Arithmetic);
}

#[test]
fn test_error_code_ranges() {
    // Test that error codes fall within expected ranges

    // Initialization errors (1000-1099)
    assert!(StellarSpendError::NotInitialized.code() >= 1000);
    assert!(StellarSpendError::NotInitialized.code() < 1100);

    // Authorization errors (1100-1199)
    assert!(StellarSpendError::Unauthorized.code() >= 1100);
    assert!(StellarSpendError::Unauthorized.code() < 1200);

    // Validation errors (1200-1299)
    assert!(StellarSpendError::InvalidInput.code() >= 1200);
    assert!(StellarSpendError::InvalidInput.code() < 1300);

    // System errors (2100-2199)
    assert!(StellarSpendError::SystemError.code() >= 2100);
    assert!(StellarSpendError::SystemError.code() < 2200);
}

#[test]
fn test_error_documentation_completeness() {
    // Test that all error categories are represented
    let categories = vec![
        ErrorCategory::Initialization,
        ErrorCategory::Authorization,
        ErrorCategory::Validation,
        ErrorCategory::State,
        ErrorCategory::Balance,
        ErrorCategory::Limit,
        ErrorCategory::Arithmetic,
        ErrorCategory::Storage,
        ErrorCategory::External,
        ErrorCategory::BusinessLogic,
        ErrorCategory::Security,
        ErrorCategory::System,
    ];

    for category in categories {
        let mut found = false;

        // Check that at least one error maps to each category
        let test_errors = vec![
            StellarSpendError::NotInitialized,
            StellarSpendError::Unauthorized,
            StellarSpendError::InvalidInput,
            StellarSpendError::NotFound,
            StellarSpendError::InsufficientBalance,
            StellarSpendError::LimitExceeded,
            StellarSpendError::Overflow,
            StellarSpendError::StorageError,
            StellarSpendError::NetworkError,
            StellarSpendError::TransactionFailed,
            StellarSpendError::SecurityViolation,
            StellarSpendError::SystemError,
        ];

        for error in test_errors {
            if error.category() == category {
                found = true;
                break;
            }
        }

        assert!(found, "Category {:?} not represented by any error", category);
    }
}

#[test]
fn every_code_reads_back_as_its_error() {
    let mut known = 0;
    for code in 0u32..3000 {
        if let Some(error) = ErrorDocumentation::code_to_error(code) {
            known += 1;
            assert_eq!(error.code(), code);
            assert_eq!(error.category().base(), code / 100 * 100);
        }
    }
    assert_eq!(known, 65);
    assert_eq!(ErrorDocumentation::code_to_error(1008), None);
    assert_eq!(ErrorDocumentation::code_to_error(2104), Some(StellarSpendError::UpgradeRequired));
    assert_eq!(ErrorDocumentation::code_to_error(2105), None);
}

#[test]
fn severity_levels_and_defaults() {
    assert_eq!(ErrorSeverity::Critical.level(), 4);
    assert_eq!(ErrorSeverity::Info.level(), 0);
    assert_eq!(StellarSpendError::SuspiciousActivity.severity(), ErrorSeverity::Info);
    assert_eq!(StellarSpendError::InvalidAddress.severity(), ErrorSeverity::Info);
    assert_eq!(StellarSpendError::CapExceeded.severity(), ErrorSeverity::Medium);
    assert!(StellarSpendError::InsufficientAllowance.is_recoverable());
    assert!(!StellarSpendError::NetworkError.is_recoverable());
    assert_eq!(RetryStrategy::ExponentialBackoff.number(), 3);
    assert_eq!(RetryStrategy::NoRetry.number(), 0);
}

#[test]
fn logging_follows_the_groups_of_codes() {
    assert!(!ErrorHelpers::should_log(1000));
    assert!(!ErrorHelpers::should_log(1099));
    assert!(ErrorHelpers::should_log(1299));
    assert!(!ErrorHelpers::should_log(1399));
    assert!(ErrorHelpers::should_log(1799));
    assert!(!ErrorHelpers::should_log(1800));
    assert!(!ErrorHelpers::should_log(1999));
    assert!(ErrorHelpers::should_log(2199));
    assert!(!ErrorHelpers::should_log(2200));
    assert!(!ErrorHelpers::should_log(0));
}
