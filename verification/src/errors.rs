//! The error catalogue shared by all contracts: every error with its code,
//! its category, its severity and the advice on retrying that goes with it.

use vstd::prelude::*;

verus! {

/// An error of the catalogue. Codes are grouped by hundreds, one group for
/// each category, starting at 1000.
#[derive(Clone, Copy, Debug, PartialEq, Eq, Structural, PartialOrd, Ord)]
pub enum StellarSpendError {
    // Initialization (1000 to 1099)
    NotInitialized,
    AlreadyInitialized,
    InvalidInitialization,
    // Authorization (1100 to 1199)
    Unauthorized,
    InvalidSignature,
    InsufficientPermissions,
    AdminRequired,
    MinterRequired,
    // Validation (1200 to 1299)
    InvalidInput,
    InvalidAmount,
    InvalidAddress,
    InvalidTimestamp,
    InvalidParameter,
    InvalidConfiguration,
    InvalidTransaction,
    InvalidSignatureFormat,
    // State (1300 to 1399)
    NotFound,
    AlreadyExists,
    InvalidState,
    NotActive,
    Expired,
    Locked,
    Paused,
    // Balance and amount (1400 to 1499)
    InsufficientBalance,
    InsufficientAllowance,
    InsufficientLiquidity,
    AmountExceedsLimit,
    NegativeAmount,
    ZeroAmount,
    AmountTooLarge,
    AmountTooSmall,
    // Limits and caps (1500 to 1599)
    LimitExceeded,
    CapExceeded,
    QuotaExceeded,
    RateLimitExceeded,
    MaxUsersExceeded,
    MaxTransactionsExceeded,
    // Arithmetic (1600 to 1699)
    Overflow,
    Underflow,
    DivisionByZero,
    InvalidCalculation,
    // Storage (1700 to 1799)
    StorageError,
    CorruptedData,
    DataNotFound,
    WriteFailed,
    ReadFailed,
    // Network and external services (1800 to 1899)
    NetworkError,
    ExternalCallFailed,
    OracleUnavailable,
    BridgeError,
    // Business logic (1900 to 1999)
    TransactionFailed,
    ConditionNotMet,
    DeadlineExceeded,
    IncompatibleOperation,
    InvalidOperation,
    // Security (2000 to 2099)
    SecurityViolation,
    SuspiciousActivity,
    BlacklistedAddress,
    FrozenAccount,
    ComplianceViolation,
    // System (2100 to 2199)
    SystemError,
    InternalError,
    NotImplemented,
    MaintenanceMode,
    UpgradeRequired,
}

/// The group of an error; its number is the first code of the group.
#[derive(Clone, Copy, Debug, PartialEq, Eq, Structural)]
pub enum ErrorCategory {
    Initialization,
    Authorization,
    Validation,
    State,
    Balance,
    Limit,
    Arithmetic,
    Storage,
    External,
    BusinessLogic,
    Security,
    System,
}

/// How grave an error is, from `Info` (0) to `Critical` (4).
#[derive(Clone, Copy, Debug, PartialEq, Eq, Structural)]
pub enum ErrorSeverity {
    Critical,
    High,
    Medium,
    Low,
    Info,
}

/// How a failed operation should be tried again.
#[derive(Clone, Copy, Debug, PartialEq, Eq, Structural)]
pub enum RetryStrategy {
    NoRetry,
    Immediate,
    FixedDelay,
    ExponentialBackoff,
}

impl ErrorCategory {
    /// The first code of the category's group.
    pub open spec fn spec_base(&self) -> u32 {
        match *self {
            ErrorCategory::Initialization => 1000u32,
            ErrorCategory::Authorization => 1100u32,
            ErrorCategory::Validation => 1200u32,
            ErrorCategory::State => 1300u32,
            ErrorCategory::Balance => 1400u32,
            ErrorCategory::Limit => 1500u32,
            ErrorCategory::Arithmetic => 1600u32,
            ErrorCategory::Storage => 1700u32,
            ErrorCategory::External => 1800u32,
            ErrorCategory::BusinessLogic => 1900u32,
            ErrorCategory::Security => 2000u32,
            ErrorCategory::System => 2100u32,
        }
    }

    /// The first code of the category's group.
    #[verifier::when_used_as_spec(spec_base)]
    pub fn base(&self) -> (base: u32)
        ensures
            base == self.spec_base(),
    {
        match self {
            ErrorCategory::Initialization => 1000,
            ErrorCategory::Authorization => 1100,
            ErrorCategory::Validation => 1200,
            ErrorCategory::State => 1300,
            ErrorCategory::Balance => 1400,
            ErrorCategory::Limit => 1500,
            ErrorCategory::Arithmetic => 1600,
            ErrorCategory::Storage => 1700,
            ErrorCategory::External => 1800,
            ErrorCategory::BusinessLogic => 1900,
            ErrorCategory::Security => 2000,
            ErrorCategory::System => 2100,
        }
    }
}

impl ErrorSeverity {
    /// The severity as a number: 0 for `Info`, 4 for `Critical`.
    pub open spec fn spec_level(&self) -> u32 {
        match *self {
            ErrorSeverity::Critical => 4u32,
            ErrorSeverity::High => 3u32,
            ErrorSeverity::Medium => 2u32,
            ErrorSeverity::Low => 1u32,
            ErrorSeverity::Info => 0u32,
        }
    }

    /// The severity as a number: 0 for `Info`, 4 for `Critical`.
    #[verifier::when_used_as_spec(spec_level)]
    pub fn level(&self) -> (level: u32)
        ensures
            level == self.spec_level(),
    {
        match self {
            ErrorSeverity::Critical => 4,
            ErrorSeverity::High => 3,
            ErrorSeverity::Medium => 2,
            ErrorSeverity::Low => 1,
            ErrorSeverity::Info => 0,
        }
    }
}

impl RetryStrategy {
    /// The strategy as a number, from 0 for `NoRetry` to 3 for
    /// `ExponentialBackoff`.
    pub fn number(&self) -> (number: u32)
        ensures
            number == match *self {
                RetryStrategy::NoRetry => 0u32,
                RetryStrategy::Immediate => 1u32,
                RetryStrategy::FixedDelay => 2u32,
                RetryStrategy::ExponentialBackoff => 3u32,
            },
    {
        match self {
            RetryStrategy::NoRetry => 0,
            RetryStrategy::Immediate => 1,
            RetryStrategy::FixedDelay => 2,
            RetryStrategy::ExponentialBackoff => 3,
        }
    }
}

impl StellarSpendError {
    /// The code of each error.
    pub open spec fn spec_code(&self) -> u32 {
        match *self {
            StellarSpendError::NotInitialized => 1000u32,
            StellarSpendError::AlreadyInitialized => 1001u32,
            StellarSpendError::InvalidInitialization => 1002u32,
            StellarSpendError::Unauthorized => 1100u32,
            StellarSpendError::InvalidSignature => 1101u32,
            StellarSpendError::InsufficientPermissions => 1102u32,
            StellarSpendError::AdminRequired => 1103u32,
            StellarSpendError::MinterRequired => 1104u32,
            StellarSpendError::InvalidInput => 1200u32,
            StellarSpendError::InvalidAmount => 1201u32,
            StellarSpendError::InvalidAddress => 1202u32,
            StellarSpendError::InvalidTimestamp => 1203u32,
            StellarSpendError::InvalidParameter => 1204u32,
            StellarSpendError::InvalidConfiguration => 1205u32,
            StellarSpendError::InvalidTransaction => 1206u32,
            StellarSpendError::InvalidSignatureFormat => 1207u32,
            StellarSpendError::NotFound => 1300u32,
            StellarSpendError::AlreadyExists => 1301u32,
            StellarSpendError::InvalidState => 1302u32,
            StellarSpendError::NotActive => 1303u32,
            StellarSpendError::Expired => 1304u32,
            StellarSpendError::Locked => 1305u32,
            StellarSpendError::Paused => 1306u32,
            StellarSpendError::InsufficientBalance => 1400u32,
            StellarSpendError::InsufficientAllowance => 1401u32,
            StellarSpendError::InsufficientLiquidity => 1402u32,
            StellarSpendError::AmountExceedsLimit => 1403u32,
            StellarSpendError::NegativeAmount => 1404u32,
            StellarSpendError::ZeroAmount => 1405u32,
            StellarSpendError::AmountTooLarge => 1406u32,
            StellarSpendError::AmountTooSmall => 1407u32,
            StellarSpendError::LimitExceeded => 1500u32,
            StellarSpendError::CapExceeded => 1501u32,
            StellarSpendError::QuotaExceeded => 1502u32,
            StellarSpendError::RateLimitExceeded => 1503u32,
            StellarSpendError::MaxUsersExceeded => 1504u32,
            StellarSpendError::MaxTransactionsExceeded => 1505u32,
            StellarSpendError::Overflow => 1600u32,
            StellarSpendError::Underflow => 1601u32,
            StellarSpendError::DivisionByZero => 1602u32,
            StellarSpendError::InvalidCalculation => 1603u32,
            StellarSpendError::StorageError => 1700u32,
            StellarSpendError::CorruptedData => 1701u32,
            StellarSpendError::DataNotFound => 1702u32,
            StellarSpendError::WriteFailed => 1703u32,
            StellarSpendError::ReadFailed => 1704u32,
            StellarSpendError::NetworkError => 1800u32,
            StellarSpendError::ExternalCallFailed => 1801u32,
            StellarSpendError::OracleUnavailable => 1802u32,
            StellarSpendError::BridgeError => 1803u32,
            StellarSpendError::TransactionFailed => 1900u32,
            StellarSpendError::ConditionNotMet => 1901u32,
            StellarSpendError::DeadlineExceeded => 1902u32,
            StellarSpendError::IncompatibleOperation => 1903u32,
            StellarSpendError::InvalidOperation => 1904u32,
            StellarSpendError::SecurityViolation => 2000u32,
            StellarSpendError::SuspiciousActivity => 2001u32,
            StellarSpendError::BlacklistedAddress => 2002u32,
            StellarSpendError::FrozenAccount => 2003u32,
            StellarSpendError::ComplianceViolation => 2004u32,
            StellarSpendError::SystemError => 2100u32,
            StellarSpendError::InternalError => 2101u32,
            StellarSpendError::NotImplemented => 2102u32,
            StellarSpendError::MaintenanceMode => 2103u32,
            StellarSpendError::UpgradeRequired => 2104u32,
        }
    }

    /// The severity of each error; `Info` where nothing graver is known.
    pub open spec fn spec_severity(&self) -> ErrorSeverity {
        match *self {
            StellarSpendError::CorruptedData
            | StellarSpendError::SecurityViolation
            | StellarSpendError::SystemError
            | StellarSpendError::InternalError => ErrorSeverity::Critical,
            StellarSpendError::Unauthorized
            | StellarSpendError::InsufficientBalance
            | StellarSpendError::Overflow
            | StellarSpendError::Underflow
            | StellarSpendError::StorageError => ErrorSeverity::High,
            StellarSpendError::InvalidInput
            | StellarSpendError::InvalidAmount
            | StellarSpendError::LimitExceeded
            | StellarSpendError::CapExceeded
            | StellarSpendError::RateLimitExceeded => ErrorSeverity::Medium,
            StellarSpendError::NotFound
            | StellarSpendError::NotActive
            | StellarSpendError::Expired
            | StellarSpendError::Paused => ErrorSeverity::Low,
            _ => ErrorSeverity::Info,
        }
    }

    /// The errors that a caller can get past by waiting or by adding funds.
    pub open spec fn spec_recoverable(&self) -> bool {
        matches!(
            *self,
            StellarSpendError::InsufficientBalance
                | StellarSpendError::InsufficientAllowance
                | StellarSpendError::RateLimitExceeded
                | StellarSpendError::Paused
                | StellarSpendError::Expired
                | StellarSpendError::NotActive
        )
    }

    /// The error's code.
    #[verifier::when_used_as_spec(spec_code)]
    pub fn code(&self) -> (code: u32)
        ensures
            code == self.spec_code(),
    {
        match self {
            StellarSpendError::NotInitialized => 1000,
            StellarSpendError::AlreadyInitialized => 1001,
            StellarSpendError::InvalidInitialization => 1002,
            StellarSpendError::Unauthorized => 1100,
            StellarSpendError::InvalidSignature => 1101,
            StellarSpendError::InsufficientPermissions => 1102,
            StellarSpendError::AdminRequired => 1103,
            StellarSpendError::MinterRequired => 1104,
            StellarSpendError::InvalidInput => 1200,
            StellarSpendError::InvalidAmount => 1201,
            StellarSpendError::InvalidAddress => 1202,
            StellarSpendError::InvalidTimestamp => 1203,
            StellarSpendError::InvalidParameter => 1204,
            StellarSpendError::InvalidConfiguration => 1205,
            StellarSpendError::InvalidTransaction => 1206,
            StellarSpendError::InvalidSignatureFormat => 1207,
            StellarSpendError::NotFound => 1300,
            StellarSpendError::AlreadyExists => 1301,
            StellarSpendError::InvalidState => 1302,
            StellarSpendError::NotActive => 1303,
            StellarSpendError::Expired => 1304,
            StellarSpendError::Locked => 1305,
            StellarSpendError::Paused => 1306,
            StellarSpendError::InsufficientBalance => 1400,
            StellarSpendError::InsufficientAllowance => 1401,
            StellarSpendError::InsufficientLiquidity => 1402,
            StellarSpendError::AmountExceedsLimit => 1403,
            StellarSpendError::NegativeAmount => 1404,
            StellarSpendError::ZeroAmount => 1405,
            StellarSpendError::AmountTooLarge => 1406,
            StellarSpendError::AmountTooSmall => 1407,
            StellarSpendError::LimitExceeded => 1500,
            StellarSpendError::CapExceeded => 1501,
            StellarSpendError::QuotaExceeded => 1502,
            StellarSpendError::RateLimitExceeded => 1503,
            StellarSpendError::MaxUsersExceeded => 1504,
            StellarSpendError::MaxTransactionsExceeded => 1505,
            StellarSpendError::Overflow => 1600,
            StellarSpendError::Underflow => 1601,
            StellarSpendError::DivisionByZero => 1602,
            StellarSpendError::InvalidCalculation => 1603,
            StellarSpendError::StorageError => 1700,
            StellarSpendError::CorruptedData => 1701,
            StellarSpendError::DataNotFound => 1702,
            StellarSpendError::WriteFailed => 1703,
            StellarSpendError::ReadFailed => 1704,
            StellarSpendError::NetworkError => 1800,
            StellarSpendError::ExternalCallFailed => 1801,
            StellarSpendError::OracleUnavailable => 1802,
            StellarSpendError::BridgeError => 1803,
            StellarSpendError::TransactionFailed => 1900,
            StellarSpendError::ConditionNotMet => 1901,
            StellarSpendError::DeadlineExceeded => 1902,
            StellarSpendError::IncompatibleOperation => 1903,
            StellarSpendError::InvalidOperation => 1904,
            StellarSpendError::SecurityViolation => 2000,
            StellarSpendError::SuspiciousActivity => 2001,
            StellarSpendError::BlacklistedAddress => 2002,
            StellarSpendError::FrozenAccount => 2003,
            StellarSpendError::ComplianceViolation => 2004,
            StellarSpendError::SystemError => 2100,
            StellarSpendError::InternalError => 2101,
            StellarSpendError::NotImplemented => 2102,
            StellarSpendError::MaintenanceMode => 2103,
            StellarSpendError::UpgradeRequired => 2104,
        }
    }

    /// The error's category: the one whose group of a hundred codes holds
    /// the error's code.
    pub fn category(&self) -> (category: ErrorCategory)
        ensures
            category.spec_base() == self.spec_code() / 100 * 100,
    {
        match self {
            StellarSpendError::NotInitialized
            | StellarSpendError::AlreadyInitialized
            | StellarSpendError::InvalidInitialization => ErrorCategory::Initialization,
            StellarSpendError::Unauthorized
            | StellarSpendError::InvalidSignature
            | StellarSpendError::InsufficientPermissions
            | StellarSpendError::AdminRequired
            | StellarSpendError::MinterRequired => ErrorCategory::Authorization,
            StellarSpendError::InvalidInput
            | StellarSpendError::InvalidAmount
            | StellarSpendError::InvalidAddress
            | StellarSpendError::InvalidTimestamp
            | StellarSpendError::InvalidParameter
            | StellarSpendError::InvalidConfiguration
            | StellarSpendError::InvalidTransaction
            | StellarSpendError::InvalidSignatureFormat => ErrorCategory::Validation,
            StellarSpendError::NotFound
            | StellarSpendError::AlreadyExists
            | StellarSpendError::InvalidState
            | StellarSpendError::NotActive
            | StellarSpendError::Expired
            | StellarSpendError::Locked
            | StellarSpendError::Paused => ErrorCategory::State,
            StellarSpendError::InsufficientBalance
            | StellarSpendError::InsufficientAllowance
            | StellarSpendError::InsufficientLiquidity
            | StellarSpendError::AmountExceedsLimit
            | StellarSpendError::NegativeAmount
            | StellarSpendError::ZeroAmount
            | StellarSpendError::AmountTooLarge
            | StellarSpendError::AmountTooSmall => ErrorCategory::Balance,
            StellarSpendError::LimitExceeded
            | StellarSpendError::CapExceeded
            | StellarSpendError::QuotaExceeded
            | StellarSpendError::RateLimitExceeded
            | StellarSpendError::MaxUsersExceeded
            | StellarSpendError::MaxTransactionsExceeded => ErrorCategory::Limit,
            StellarSpendError::Overflow
            | StellarSpendError::Underflow
            | StellarSpendError::DivisionByZero
            | StellarSpendError::InvalidCalculation => ErrorCategory::Arithmetic,
            StellarSpendError::StorageError
            | StellarSpendError::CorruptedData
            | StellarSpendError::DataNotFound
            | StellarSpendError::WriteFailed
            | StellarSpendError::ReadFailed => ErrorCategory::Storage,
            StellarSpendError::NetworkError
            | StellarSpendError::ExternalCallFailed
            | StellarSpendError::OracleUnavailable
            | StellarSpendError::BridgeError => ErrorCategory::External,
            StellarSpendError::TransactionFailed
            | StellarSpendError::ConditionNotMet
            | StellarSpendError::DeadlineExceeded
            | StellarSpendError::IncompatibleOperation
            | StellarSpendError::InvalidOperation => ErrorCategory::BusinessLogic,
            StellarSpendError::SecurityViolation
            | StellarSpendError::SuspiciousActivity
            | StellarSpendError::BlacklistedAddress
            | StellarSpendError::FrozenAccount
            | StellarSpendError::ComplianceViolation => ErrorCategory::Security,
            StellarSpendError::SystemError
            | StellarSpendError::InternalError
            | StellarSpendError::NotImplemented
            | StellarSpendError::MaintenanceMode
            | StellarSpendError::UpgradeRequired => ErrorCategory::System,
        }
    }

    /// The error's severity.
    pub fn severity(&self) -> (severity: ErrorSeverity)
        ensures
            severity == self.spec_severity(),
    {
        match self {
            StellarSpendError::CorruptedData
            | StellarSpendError::SecurityViolation
            | StellarSpendError::SystemError
            | StellarSpendError::InternalError => ErrorSeverity::Critical,
            StellarSpendError::Unauthorized
            | StellarSpendError::InsufficientBalance
            | StellarSpendError::Overflow
            | StellarSpendError::Underflow
            | StellarSpendError::StorageError => ErrorSeverity::High,
            StellarSpendError::InvalidInput
            | StellarSpendError::InvalidAmount
            | StellarSpendError::LimitExceeded
            | StellarSpendError::CapExceeded
            | StellarSpendError::RateLimitExceeded => ErrorSeverity::Medium,
            StellarSpendError::NotFound
            | StellarSpendError::NotActive
            | StellarSpendError::Expired
            | StellarSpendError::Paused => ErrorSeverity::Low,
            _ => ErrorSeverity::Info,
        }
    }

    /// Whether a caller can get past the error by waiting or by adding
    /// funds.
    pub fn is_recoverable(&self) -> (recoverable: bool)
        ensures
            recoverable == self.spec_recoverable(),
    {
        match self {
            StellarSpendError::InsufficientBalance
            | StellarSpendError::InsufficientAllowance
            | StellarSpendError::RateLimitExceeded
            | StellarSpendError::Paused
            | StellarSpendError::Expired
            | StellarSpendError::NotActive => true,
            _ => false,
        }
    }

    /// The seconds to wait before a retry, for the errors that pass with
    /// time.
    pub fn retry_delay(&self) -> (delay: Option<u64>)
        ensures
            delay == match *self {
                StellarSpendError::RateLimitExceeded => Some(60u64),
                StellarSpendError::NetworkError => Some(30u64),
                StellarSpendError::OracleUnavailable => Some(120u64),
                StellarSpendError::MaintenanceMode => Some(300u64),
                _ => None::<u64>,
            },
    {
        match self {
            StellarSpendError::RateLimitExceeded => Some(60),
            StellarSpendError::NetworkError => Some(30),
            StellarSpendError::OracleUnavailable => Some(120),
            StellarSpendError::MaintenanceMode => Some(300),
            _ => None,
        }
    }
}

/// The catalogue read by code.
pub struct ErrorDocumentation;

impl ErrorDocumentation {
    /// The error with the code `code`, if there is one.
    pub fn code_to_error(code: u32) -> (error: Option<StellarSpendError>)
        ensures
            match error {
                Some(e) => e.spec_code() == code,
                None => forall|e: StellarSpendError| e.spec_code() != code,
            },
    {
        match code {
            1000 => Some(StellarSpendError::NotInitialized),
            1001 => Some(StellarSpendError::AlreadyInitialized),
            1002 => Some(StellarSpendError::InvalidInitialization),
            1100 => Some(StellarSpendError::Unauthorized),
            1101 => Some(StellarSpendError::InvalidSignature),
            1102 => Some(StellarSpendError::InsufficientPermissions),
            1103 => Some(StellarSpendError::AdminRequired),
            1104 => Some(StellarSpendError::MinterRequired),
            1200 => Some(StellarSpendError::InvalidInput),
            1201 => Some(StellarSpendError::InvalidAmount),
            1202 => Some(StellarSpendError::InvalidAddress),
            1203 => Some(StellarSpendError::InvalidTimestamp),
            1204 => Some(StellarSpendError::InvalidParameter),
            1205 => Some(StellarSpendError::InvalidConfiguration),
            1206 => Some(StellarSpendError::InvalidTransaction),
            1207 => Some(StellarSpendError::InvalidSignatureFormat),
            1300 => Some(StellarSpendError::NotFound),
            1301 => Some(StellarSpendError::AlreadyExists),
            1302 => Some(StellarSpendError::InvalidState),
            1303 => Some(StellarSpendError::NotActive),
            1304 => Some(StellarSpendError::Expired),
            1305 => Some(StellarSpendError::Locked),
            1306 => Some(StellarSpendError::Paused),
            1400 => Some(StellarSpendError::InsufficientBalance),
            1401 => Some(StellarSpendError::InsufficientAllowance),
            1402 => Some(StellarSpendError::InsufficientLiquidity),
            1403 => Some(StellarSpendError::AmountExceedsLimit),
            1404 => Some(StellarSpendError::NegativeAmount),
            1405 => Some(StellarSpendError::ZeroAmount),
            1406 => Some(StellarSpendError::AmountTooLarge),
            1407 => Some(StellarSpendError::AmountTooSmall),
            1500 => Some(StellarSpendError::LimitExceeded),
            1501 => Some(StellarSpendError::CapExceeded),
            1502 => Some(StellarSpendError::QuotaExceeded),
            1503 => Some(StellarSpendError::RateLimitExceeded),
            1504 => Some(StellarSpendError::MaxUsersExceeded),
            1505 => Some(StellarSpendError::MaxTransactionsExceeded),
            1600 => Some(StellarSpendError::Overflow),
            1601 => Some(StellarSpendError::Underflow),
            1602 => Some(StellarSpendError::DivisionByZero),
            1603 => Some(StellarSpendError::InvalidCalculation),
            1700 => Some(StellarSpendError::StorageError),
            1701 => Some(StellarSpendError::CorruptedData),
            1702 => Some(StellarSpendError::DataNotFound),
            1703 => Some(StellarSpendError::WriteFailed),
            1704 => Some(StellarSpendError::ReadFailed),
            1800 => Some(StellarSpendError::NetworkError),
            1801 => Some(StellarSpendError::ExternalCallFailed),
            1802 => Some(StellarSpendError::OracleUnavailable),
            1803 => Some(StellarSpendError::BridgeError),
            1900 => Some(StellarSpendError::TransactionFailed),
            1901 => Some(StellarSpendError::ConditionNotMet),
            1902 => Some(StellarSpendError::DeadlineExceeded),
            1903 => Some(StellarSpendError::IncompatibleOperation),
            1904 => Some(StellarSpendError::InvalidOperation),
            2000 => Some(StellarSpendError::SecurityViolation),
            2001 => Some(StellarSpendError::SuspiciousActivity),
            2002 => Some(StellarSpendError::BlacklistedAddress),
            2003 => Some(StellarSpendError::FrozenAccount),
            2004 => Some(StellarSpendError::ComplianceViolation),
            2100 => Some(StellarSpendError::SystemError),
            2101 => Some(StellarSpendError::InternalError),
            2102 => Some(StellarSpendError::NotImplemented),
            2103 => Some(StellarSpendError::MaintenanceMode),
            2104 => Some(StellarSpendError::UpgradeRequired),
            _ => None,
        }
    }
}

/// Where and when an error occurred, for logging.
#[derive(Debug, PartialEq, Eq)]
pub struct ErrorContext {
    pub error_code: u32,
    pub contract_name: String,
    pub function_name: String,
    pub parameters: Vec<String>,
    pub timestamp: u64,
    /// Further details, as pairs of key and value.
    pub additional_info: Vec<(String, String)>,
}

/// Decisions that depend on an error's code alone.
pub struct ErrorHelpers;

/// Whether `code` lies in a group whose errors are logged: authorization
/// and validation, balance through storage, security and system.
pub open spec fn logged_code(code: u32) -> bool {
    ||| 1100 <= code <= 1299
    ||| 1400 <= code <= 1799
    ||| 2000 <= code <= 2199
}

impl ErrorHelpers {
    /// The context of an error that occurred at time `timestamp`.
    pub fn create_context(
        error_code: u32,
        contract_name: &str,
        function_name: &str,
        parameters: Vec<String>,
        additional_info: Vec<(String, String)>,
        timestamp: u64,
    ) -> (context: ErrorContext)
        ensures
            context.error_code == error_code,
            context.contract_name@ == contract_name@,
            context.function_name@ == function_name@,
            context.parameters == parameters,
            context.timestamp == timestamp,
            context.additional_info == additional_info,
    {
        ErrorContext {
            error_code,
            contract_name: contract_name.to_owned(),
            function_name: function_name.to_owned(),
            parameters,
            timestamp,
            additional_info,
        }
    }

    /// Whether an error with this code should be logged.
    pub fn should_log(error_code: u32) -> (log: bool)
        ensures
            log == logged_code(error_code),
    {
        (1100 <= error_code && error_code <= 1299) || (1400 <= error_code && error_code <= 1799) || (2000
            <= error_code && error_code <= 2199)
    }

    /// How to retry after an error with this code: at once after a network
    /// or oracle failure, after a fixed delay during maintenance, not at all
    /// after a refusal that will not change, and with growing delays in
    /// every other case.
    pub fn retry_strategy(error_code: u32) -> (strategy: RetryStrategy)
        ensures
            strategy == if error_code == 1800 || error_code == 1802 {
                RetryStrategy::Immediate
            } else if error_code == 2103 {
                RetryStrategy::FixedDelay
            } else if error_code == 1100 || error_code == 2000 || error_code == 1400 {
                RetryStrategy::NoRetry
            } else {
                RetryStrategy::ExponentialBackoff
            },
    {
        match error_code {
            1800 | 1802 => RetryStrategy::Immediate,
            1503 => RetryStrategy::ExponentialBackoff,
            2103 => RetryStrategy::FixedDelay,
            1100 | 2000 | 1400 => RetryStrategy::NoRetry,
            _ => RetryStrategy::ExponentialBackoff,
        }
    }
}

} // verus!
