//! Utilities shared by the contracts: initialization checks, timestamps,
//! transaction ids, the operation rate limit and the standard events.

use vstd::prelude::*;
use crate::account::Account;
use crate::errors::StellarSpendError;
use crate::keyed_map::{KeyedMap, MapKey};

verus! {

/// The count of operations in the window that began at `window_start`.
#[derive(Clone, Copy, Debug, PartialEq, Eq)]
pub struct RateLimitData {
    pub count: u32,
    pub window_start: u64,
}

/// A user together with the name of an operation.
pub struct OperationKey {
    pub user: Account,
    pub operation: String,
}

impl MapKey for OperationKey {
    type Name = (Seq<char>, Seq<char>);

    open spec fn name(&self) -> (Seq<char>, Seq<char>) {
        (self.user@, self.operation@)
    }

    fn same_key(&self, other: &OperationKey) -> (equal: bool) {
        self.user.same(&other.user) && self.operation == other.operation
    }

    fn copy_key(&self) -> (copy: OperationKey) {
        OperationKey { user: self.user.clone(), operation: self.operation.clone() }
    }
}

/// Whether a window that began at `window_start` and lasts
/// `window_seconds` still holds the time `now`.
pub open spec fn in_window(now: u64, window_start: u64, window_seconds: u64) -> bool {
    now < window_start + window_seconds
}

/// What an operation at time `now` makes of the record `data`: one more in
/// a window that still runs, the first of a new window otherwise; and no
/// record where the window that runs has reached `limit`.
pub open spec fn next_rate_data(data: Option<RateLimitData>, now: u64, limit: u32, window_seconds: u64) -> Option<
    RateLimitData,
> {
    match data {
        Some(d) if in_window(now, d.window_start, window_seconds) => if d.count >= limit {
            None
        } else {
            Some(RateLimitData { count: (d.count + 1) as u32, window_start: d.window_start })
        },
        _ => Some(RateLimitData { count: 1, window_start: now }),
    }
}

/// The standard report of an error, for the host to publish.
#[derive(Clone, Copy, Debug, PartialEq, Eq)]
pub struct ErrorEvent {
    pub code: u32,
    /// The first code of the error's category.
    pub category: u32,
    /// The error's severity, from 0 to 4.
    pub severity: u32,
    pub timestamp: u64,
}

/// The shared utilities, with the table of the operation rate limit.
pub struct ContractUtils {
    /// The record of each user for each operation.
    pub limits: KeyedMap<OperationKey, RateLimitData>,
}

impl View for ContractUtils {
    type V = Map<(Seq<char>, Seq<char>), RateLimitData>;

    open spec fn view(&self) -> Map<(Seq<char>, Seq<char>), RateLimitData> {
        self.limits@
    }
}

/// The record of `user` for `operation`, if there is one.
pub open spec fn rate_data(
    table: Map<(Seq<char>, Seq<char>), RateLimitData>,
    user: Seq<char>,
    operation: Seq<char>,
) -> Option<RateLimitData> {
    if table.contains_key((user, operation)) {
        Some(table[(user, operation)])
    } else {
        None
    }
}

impl ContractUtils {
    /// The invariant of the table.
    pub open spec fn wf(&self) -> bool {
        self.limits.wf()
    }

    /// Utilities with an empty table.
    pub fn new() -> (utils: ContractUtils)
        ensures
            utils.wf(),
            utils@ == Map::<(Seq<char>, Seq<char>), RateLimitData>::empty(),
    {
        ContractUtils { limits: KeyedMap::new() }
    }

    /// The administrator of a contract; `NotInitialized` where it has none.
    pub fn get_admin(admin: &Option<Account>) -> (result: Result<Account, StellarSpendError>)
        ensures
            match *admin {
                Some(a) => result is Ok && result->Ok_0@ == a@,
                None => result == Err::<Account, StellarSpendError>(StellarSpendError::NotInitialized),
            },
    {
        match admin {
            Some(a) => Ok(a.clone()),
            None => Err(StellarSpendError::NotInitialized),
        }
    }

    /// Whether a contract has an administrator.
    pub fn is_initialized(admin: &Option<Account>) -> (initialized: bool)
        ensures
            initialized == admin is Some,
    {
        admin.is_some()
    }

    /// `NotInitialized` unless a contract has an administrator.
    pub fn require_initialized(admin: &Option<Account>) -> (result: Result<(), StellarSpendError>)
        ensures
            admin is Some ==> result is Ok,
            admin is None ==> result == Err::<(), StellarSpendError>(StellarSpendError::NotInitialized),
    {
        if Self::is_initialized(admin) {
            Ok(())
        } else {
            Err(StellarSpendError::NotInitialized)
        }
    }

    /// A ledger timestamp, which must not be zero.
    pub fn get_timestamp(timestamp: u64) -> (result: Result<u64, StellarSpendError>)
        ensures
            timestamp > 0 ==> result == Ok::<u64, StellarSpendError>(timestamp),
            timestamp == 0 ==> result == Err::<u64, StellarSpendError>(StellarSpendError::InvalidTimestamp),
    {
        if timestamp > 0 {
            Ok(timestamp)
        } else {
            Err(StellarSpendError::InvalidTimestamp)
        }
    }

    /// A transaction id: the sum of the ledger's timestamp and sequence
    /// number; `Overflow` where it is not representable.
    pub fn generate_transaction_id(timestamp: u64, sequence: u32) -> (result: Result<u64, StellarSpendError>)
        ensures
            timestamp + sequence <= u64::MAX ==> result == Ok::<u64, StellarSpendError>(
                (timestamp + sequence) as u64,
            ),
            timestamp + sequence > u64::MAX ==> result == Err::<u64, StellarSpendError>(
                StellarSpendError::Overflow,
            ),
    {
        match timestamp.checked_add(sequence as u64) {
            Some(id) => Ok(id),
            None => Err(StellarSpendError::Overflow),
        }
    }

    /// The standard report of `error` at time `timestamp`.
    pub fn emit_error_event(error: StellarSpendError, timestamp: u64) -> (event: ErrorEvent)
        ensures
            event.code == error.spec_code(),
            event.category == error.spec_code() / 100 * 100,
            event.severity == error.spec_severity().spec_level(),
            event.timestamp == timestamp,
    {
        ErrorEvent {
            code: error.code(),
            category: error.category().base(),
            severity: error.severity().level(),
            timestamp,
        }
    }

    /// Admits or refuses an operation of `user` at time `now`, under a limit
    /// of `limit` operations in a window of `window_seconds`.
    ///
    /// Refused with `RateLimitExceeded`, and without effect, when the window
    /// that runs has reached the limit. Otherwise the operation is counted:
    /// in the running window, or as the first of a new one.
    pub fn check_rate_limit(
        &mut self,
        user: &Account,
        operation: &str,
        limit: u32,
        window_seconds: u64,
        now: u64,
    ) -> (result: Result<(), StellarSpendError>)
        requires
            old(self).wf(),
        ensures
            final(self).wf(),
            match next_rate_data(rate_data(old(self)@, user@, operation@), now, limit, window_seconds) {
                Some(data) => result is Ok && final(self)@ == old(self)@.insert((user@, operation@), data),
                None => result == Err::<(), StellarSpendError>(StellarSpendError::RateLimitExceeded)
                    && final(self)@ == old(self)@,
            },
    {
        let key = OperationKey { user: user.clone(), operation: operation.to_owned() };
        let current: Option<RateLimitData> = match self.limits.get(&key) {
            Some(data) => Some(*data),
            None => None,
        };
        let fresh = RateLimitData { count: 1, window_start: now };
        let next = match current {
            Some(data) => {
                let running = match data.window_start.checked_add(window_seconds) {
                    Some(end) => now < end,
                    None => true,
                };
                if running {
                    if data.count >= limit {
                        return Err(StellarSpendError::RateLimitExceeded);
                    }
                    RateLimitData { count: data.count + 1, window_start: data.window_start }
                } else {
                    fresh
                }
            },
            None => fresh,
        };
        self.limits.insert(&key, next);
        Ok(())
    }
}

/// The largest amount that passes validation: half of the largest
/// representable one.
pub const MAX_VALID_AMOUNT: i128 = 85_070_591_730_234_615_865_843_651_857_942_052_863;

/// An amount is valid when it is positive and at most `MAX_VALID_AMOUNT`.
pub fn validate_amount(amount: i128) -> (result: Result<(), StellarSpendError>)
    ensures
        amount <= 0 ==> result == Err::<(), StellarSpendError>(StellarSpendError::InvalidAmount),
        amount > MAX_VALID_AMOUNT ==> result == Err::<(), StellarSpendError>(
            StellarSpendError::AmountTooLarge,
        ),
        0 < amount <= MAX_VALID_AMOUNT ==> result is Ok,
{
    if amount <= 0 {
        return Err(StellarSpendError::InvalidAmount);
    }
    if amount > MAX_VALID_AMOUNT {
        return Err(StellarSpendError::AmountTooLarge);
    }
    Ok(())
}

/// An amount with a lower bound is valid when it reaches `min` and is
/// valid as an amount; the bound is checked first.
pub fn validate_amount_min(amount: i128, min: i128) -> (result: Result<(), StellarSpendError>)
    ensures
        amount < min ==> result == Err::<(), StellarSpendError>(StellarSpendError::AmountTooSmall),
        amount >= min && amount <= 0 ==> result == Err::<(), StellarSpendError>(
            StellarSpendError::InvalidAmount,
        ),
        amount >= min && amount > MAX_VALID_AMOUNT ==> result == Err::<(), StellarSpendError>(
            StellarSpendError::AmountTooLarge,
        ),
        amount >= min && 0 < amount <= MAX_VALID_AMOUNT ==> result is Ok,
{
    if amount < min {
        return Err(StellarSpendError::AmountTooSmall);
    }
    validate_amount(amount)
}

/// An amount with bounds is valid when it lies between `min` and `max`
/// and is positive; the lower bound is checked first, the upper second.
pub fn validate_amount_range(amount: i128, min: i128, max: i128) -> (result: Result<(), StellarSpendError>)
    ensures
        amount < min ==> result == Err::<(), StellarSpendError>(StellarSpendError::AmountTooSmall),
        min <= amount && amount > max ==> result == Err::<(), StellarSpendError>(
            StellarSpendError::AmountTooLarge,
        ),
        min <= amount <= max && amount <= 0 ==> result == Err::<(), StellarSpendError>(
            StellarSpendError::InvalidAmount,
        ),
        min <= amount <= max && amount > 0 ==> result is Ok,
{
    if amount < min {
        return Err(StellarSpendError::AmountTooSmall);
    }
    if amount > max {
        return Err(StellarSpendError::AmountTooLarge);
    }
    if amount <= 0 {
        return Err(StellarSpendError::InvalidAmount);
    }
    Ok(())
}

/// The sum of two amounts; `Overflow` where it is not representable.
pub fn safe_add(a: i128, b: i128) -> (result: Result<i128, StellarSpendError>)
    ensures
        i128::MIN <= a + b <= i128::MAX ==> result == Ok::<i128, StellarSpendError>((a + b) as i128),
        !(i128::MIN <= a + b <= i128::MAX) ==> result == Err::<i128, StellarSpendError>(
            StellarSpendError::Overflow,
        ),
{
    match a.checked_add(b) {
        Some(sum) => Ok(sum),
        None => Err(StellarSpendError::Overflow),
    }
}

/// The difference of two amounts; `Underflow` where it is not
/// representable.
pub fn safe_sub(a: i128, b: i128) -> (result: Result<i128, StellarSpendError>)
    ensures
        i128::MIN <= a - b <= i128::MAX ==> result == Ok::<i128, StellarSpendError>((a - b) as i128),
        !(i128::MIN <= a - b <= i128::MAX) ==> result == Err::<i128, StellarSpendError>(
            StellarSpendError::Underflow,
        ),
{
    match a.checked_sub(b) {
        Some(difference) => Ok(difference),
        None => Err(StellarSpendError::Underflow),
    }
}

/// The product of two amounts; `Overflow` where it is not representable.
pub fn safe_mul(a: i128, b: i128) -> (result: Result<i128, StellarSpendError>)
    ensures
        i128::MIN <= a * b <= i128::MAX ==> result == Ok::<i128, StellarSpendError>((a * b) as i128),
        !(i128::MIN <= a * b <= i128::MAX) ==> result == Err::<i128, StellarSpendError>(
            StellarSpendError::Overflow,
        ),
{
    match a.checked_mul(b) {
        Some(product) => Ok(product),
        None => Err(StellarSpendError::Overflow),
    }
}

/// The quotient of `a` by `b`, rounded toward zero. The quotient of a
/// dividend that is not negative is rounded toward zero as it stands; that
/// of a negative dividend is the negated quotient of its negation.
pub open spec fn quotient(a: int, b: int) -> int
    recommends
        b != 0,
{
    if a >= 0 {
        a / b
    } else {
        -((-a) / b)
    }
}

/// The quotient of two amounts, rounded toward zero: `DivisionByZero`
/// where the divisor is zero, `InvalidCalculation` where the quotient is
/// not representable.
pub fn safe_div(a: i128, b: i128) -> (result: Result<i128, StellarSpendError>)
    ensures
        b == 0 ==> result == Err::<i128, StellarSpendError>(StellarSpendError::DivisionByZero),
        b == -1 && a == i128::MIN ==> result == Err::<i128, StellarSpendError>(
            StellarSpendError::InvalidCalculation,
        ),
        b != 0 && !(b == -1 && a == i128::MIN) ==> result == Ok::<i128, StellarSpendError>(
            quotient(a as int, b as int) as i128,
        ),
{
    if b == 0 {
        return Err(StellarSpendError::DivisionByZero);
    }
    if b == -1 && a == i128::MIN {
        return Err(StellarSpendError::InvalidCalculation);
    }
    Ok(a / b)
}

/// A standard report of an operation, for the host to publish.
#[derive(Debug, PartialEq, Eq)]
pub enum OperationEvent {
    Started { operation: String, user: Account, parameters: Vec<String>, timestamp: u64 },
    Completed { operation: String, user: Account, result: String, timestamp: u64 },
    Failed { operation: String, user: Account, error_code: u32, timestamp: u64 },
}

impl OperationEvent {
    /// The pair of topic words under which the event is published.
    pub fn topics(&self) -> (topics: (&'static str, &'static str))
        ensures
            topics.0@ == "operation"@,
            self is Started ==> topics.1@ == "started"@,
            self is Completed ==> topics.1@ == "completed"@,
            self is Failed ==> topics.1@ == "failed"@,
    {
        match self {
            OperationEvent::Started { .. } => ("operation", "started"),
            OperationEvent::Completed { .. } => ("operation", "completed"),
            OperationEvent::Failed { .. } => ("operation", "failed"),
        }
    }
}

/// The makers of the standard operation events.
pub struct EventEmit;

impl EventEmit {
    /// The event for an operation that `user` started.
    pub fn operation_started(operation: &str, user: &Account, parameters: Vec<String>, timestamp: u64) -> (event:
        OperationEvent)
        ensures
            event matches OperationEvent::Started { operation: o, user: u, parameters: p, timestamp: t }
                && o@ == operation@ && u@ == user@ && p == parameters && t == timestamp,
    {
        OperationEvent::Started { operation: operation.to_owned(), user: user.clone(), parameters, timestamp }
    }

    /// The event for an operation of `user` that ended with `result`.
    pub fn operation_completed(operation: &str, user: &Account, result: &str, timestamp: u64) -> (event:
        OperationEvent)
        ensures
            event matches OperationEvent::Completed { operation: o, user: u, result: r, timestamp: t }
                && o@ == operation@ && u@ == user@ && r@ == result@ && t == timestamp,
    {
        OperationEvent::Completed {
            operation: operation.to_owned(),
            user: user.clone(),
            result: result.to_owned(),
            timestamp,
        }
    }

    /// The event for an operation of `user` that failed with `error`.
    pub fn operation_failed(operation: &str, user: &Account, error: StellarSpendError, timestamp: u64) -> (event:
        OperationEvent)
        ensures
            event matches OperationEvent::Failed { operation: o, user: u, error_code: c, timestamp: t }
                && o@ == operation@ && u@ == user@ && c == error.spec_code() && t == timestamp,
    {
        OperationEvent::Failed {
            operation: operation.to_owned(),
            user: user.clone(),
            error_code: error.code(),
            timestamp,
        }
    }
}

} // verus!
