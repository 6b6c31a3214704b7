//! Validation of the inputs of the analytics functions. A batch is refused
//! for the first of its items that is at fault.

use std::collections::HashSet;
use vstd::prelude::*;
use vstd::utf8::encode_utf8;
use crate::account::Account;
use crate::analytics::types::{
    BundledTransaction, RatingInput, RefundRequest, Transaction, TransactionStatusUpdate,
    ValidationError, MAX_BATCH_SIZE, MAX_TEXT_LENGTH,
};

verus! {

broadcast use vstd::std_specs::hash::group_hash_axioms;

/// Whether a text is acceptable as a reason or a memo: not empty, and at
/// most 255 bytes long.
pub open spec fn text_ok(text: Seq<char>) -> bool {
    text.len() > 0 && encode_utf8(text).len() <= MAX_TEXT_LENGTH
}

/// Checks a reason or a memo against `text_ok`.
fn check_text(text: &String) -> (ok: bool)
    ensures
        ok == text_ok(text@),
{
    let s = text.as_str();
    !s.is_empty() && s.as_bytes().len() <= MAX_TEXT_LENGTH
}

/// Why a batch of `len` items is refused for its size, if it is.
pub open spec fn batch_size_error(len: nat) -> Option<ValidationError> {
    if len == 0 {
        Some(ValidationError::EmptyBatch)
    } else if len > MAX_BATCH_SIZE {
        Some(ValidationError::BatchTooLarge)
    } else {
        None
    }
}

/// What a batch validation owes for a batch whose items have the faults
/// `errors`: the size error if there is one, else the fault of the first
/// item that has one, else success.
pub open spec fn batch_result(errors: Seq<Option<ValidationError>>, result: Result<(), ValidationError>) -> bool {
    match batch_size_error(errors.len()) {
        Some(e) => result == Err::<(), ValidationError>(e),
        None => match result {
            Ok(_) => forall|i: int| 0 <= i < errors.len() ==> (#[trigger] errors[i]) is None,
            Err(e) => exists|i: int|
                0 <= i < errors.len() && #[trigger] errors[i] == Some(e) && forall|j: int|
                    0 <= j < i ==> (#[trigger] errors[j]) is None,
        },
    }
}

/// An account is a valid address when its name is not empty.
pub fn validate_address(address: &Account) -> (result: Result<(), ValidationError>)
    ensures
        address@.len() > 0 ==> result is Ok,
        address@.len() == 0 ==> result == Err::<(), ValidationError>(ValidationError::InvalidAddress),
{
    if address.name().is_empty() {
        return Err(ValidationError::InvalidAddress);
    }
    Ok(())
}

/// A user's account is valid as any address is.
pub fn validate_user_address(user: &Account) -> (result: Result<(), ValidationError>)
    ensures
        user@.len() > 0 ==> result is Ok,
        user@.len() == 0 ==> result == Err::<(), ValidationError>(ValidationError::InvalidAddress),
{
    validate_address(user)
}

/// An amount is valid when it is positive.
pub fn validate_amount(amount: i128) -> (result: Result<(), ValidationError>)
    ensures
        amount > 0 ==> result is Ok,
        amount <= 0 ==> result == Err::<(), ValidationError>(ValidationError::InvalidAmount),
{
    if amount <= 0 {
        return Err(ValidationError::InvalidAmount);
    }
    Ok(())
}

/// Amounts are valid when each of them is positive.
pub fn validate_amounts(amounts: &[i128]) -> (result: Result<(), ValidationError>)
    ensures
        result is Ok <==> forall|i: int| 0 <= i < amounts@.len() ==> amounts@[i] > 0,
        result is Err ==> result == Err::<(), ValidationError>(ValidationError::InvalidAmount),
{
    let mut i: usize = 0;
    while i < amounts.len()
        invariant
            i <= amounts@.len(),
            forall|j: int| 0 <= j < i ==> amounts@[j] > 0,
        decreases amounts@.len() - i,
    {
        match validate_amount(amounts[i]) {
            Err(e) => {
                return Err(e);
            },
            Ok(()) => {},
        }
        i += 1;
    }
    Ok(())
}

/// Why a transaction is refused, if it is: for its sender, its recipient,
/// its amount or its category, in this order.
pub open spec fn transaction_error(tx: &Transaction) -> Option<ValidationError> {
    if tx.from@.len() == 0 || tx.to@.len() == 0 {
        Some(ValidationError::InvalidAddress)
    } else if tx.amount <= 0 {
        Some(ValidationError::InvalidAmount)
    } else if tx.category@.len() == 0 {
        Some(ValidationError::InvalidCategory)
    } else {
        None
    }
}

/// Validates one transaction against `transaction_error`.
pub fn validate_transaction(transaction: &Transaction) -> (result: Result<(), ValidationError>)
    ensures
        match transaction_error(transaction) {
            Some(e) => result == Err::<(), ValidationError>(e),
            None => result is Ok,
        },
{
    match validate_address(&transaction.from) {
        Err(e) => {
            return Err(e);
        },
        Ok(()) => {},
    }
    match validate_address(&transaction.to) {
        Err(e) => {
            return Err(e);
        },
        Ok(()) => {},
    }
    match validate_amount(transaction.amount) {
        Err(e) => {
            return Err(e);
        },
        Ok(()) => {},
    }
    if transaction.category.as_str().is_empty() {
        return Err(ValidationError::InvalidCategory);
    }
    Ok(())
}

/// The fault of each transaction of a batch.
pub open spec fn transaction_errors(transactions: Seq<Transaction>) -> Seq<Option<ValidationError>> {
    Seq::new(transactions.len(), |i: int| transaction_error(&transactions[i]))
}

/// Validates a batch of transactions: its size, then each transaction.
pub fn validate_transactions(transactions: &Vec<Transaction>) -> (result: Result<(), ValidationError>)
    ensures
        batch_result(transaction_errors(transactions@), result),
{
    if transactions.len() == 0 {
        return Err(ValidationError::EmptyBatch);
    }
    if transactions.len() > MAX_BATCH_SIZE {
        return Err(ValidationError::BatchTooLarge);
    }
    let ghost errors = transaction_errors(transactions@);
    let mut i: usize = 0;
    while i < transactions.len()
        invariant
            i <= transactions@.len(),
            0 < transactions@.len() <= MAX_BATCH_SIZE,
            errors == transaction_errors(transactions@),
            forall|j: int| 0 <= j < i ==> (#[trigger] errors[j]) is None,
        decreases transactions@.len() - i,
    {
        match validate_transaction(&transactions[i]) {
            Err(e) => {
                assert(errors[i as int] == Some(e));
                return Err(e);
            },
            Ok(()) => {},
        }
        i += 1;
    }
    Ok(())
}

/// Why a refund request is refused, if it is.
pub open spec fn refund_request_error(request: &RefundRequest) -> Option<ValidationError> {
    if request.tx_id == 0 {
        Some(ValidationError::InvalidTransactionId)
    } else if request.reason is Some && !text_ok(request.reason->Some_0@) {
        Some(ValidationError::InvalidReason)
    } else {
        None
    }
}

/// Validates one refund request: its transaction id is not zero, and its
/// reason, if it has one, is an acceptable text.
pub fn validate_refund_request(request: &RefundRequest) -> (result: Result<(), ValidationError>)
    ensures
        match refund_request_error(request) {
            Some(e) => result == Err::<(), ValidationError>(e),
            None => result is Ok,
        },
{
    if request.tx_id == 0 {
        return Err(ValidationError::InvalidTransactionId);
    }
    match &request.reason {
        Some(reason) => {
            if !check_text(reason) {
                return Err(ValidationError::InvalidReason);
            }
        },
        None => {},
    }
    Ok(())
}

/// What is wrong with item `i` of a batch whose items carry the ids `ids`:
/// an id that an earlier item carries, or else the item's own fault.
pub open spec fn keyed_item_error(ids: Seq<u64>, own: Option<ValidationError>, i: int) -> Option<
    ValidationError,
> {
    if exists|j: int| 0 <= j < i && ids[j] == ids[i] {
        Some(ValidationError::DuplicateTransactionId)
    } else {
        own
    }
}

/// The transaction ids of a batch of refund requests.
pub open spec fn refund_ids(requests: Seq<RefundRequest>) -> Seq<u64> {
    Seq::new(requests.len(), |i: int| requests[i].tx_id)
}

/// The fault of each refund request of a batch.
pub open spec fn refund_errors(requests: Seq<RefundRequest>) -> Seq<Option<ValidationError>> {
    Seq::new(
        requests.len(),
        |i: int| keyed_item_error(refund_ids(requests), refund_request_error(&requests[i]), i),
    )
}

/// Validates a batch of refund requests: its size, then each request, which
/// must not repeat the transaction id of an earlier one.
pub fn validate_refund_requests(requests: &Vec<RefundRequest>) -> (result: Result<(), ValidationError>)
    ensures
        batch_result(refund_errors(requests@), result),
{
    if requests.len() == 0 {
        return Err(ValidationError::EmptyBatch);
    }
    if requests.len() > MAX_BATCH_SIZE {
        return Err(ValidationError::BatchTooLarge);
    }
    let ghost ids = refund_ids(requests@);
    let ghost errors = refund_errors(requests@);
    let mut seen: HashSet<u64> = HashSet::new();
    let mut i: usize = 0;
    while i < requests.len()
        invariant
            i <= requests@.len(),
            ids == refund_ids(requests@),
            0 < requests@.len() <= MAX_BATCH_SIZE,
            errors == refund_errors(requests@),
            forall|j: int| 0 <= j < i ==> (#[trigger] errors[j]) is None,
            forall|id: u64| seen@.contains(id) <==> exists|j: int| 0 <= j < i && ids[j] == id,
        decreases requests@.len() - i,
    {
        let id = requests[i].tx_id;
        assert(ids[i as int] == id);
        if seen.contains(&id) {
            assert(errors[i as int] == Some(ValidationError::DuplicateTransactionId));
            return Err(ValidationError::DuplicateTransactionId);
        }
        seen.insert(id);
        match validate_refund_request(&requests[i]) {
            Err(e) => {
                assert(errors[i as int] == Some(e));
                return Err(e);
            },
            Ok(()) => {},
        }
        assert forall|x: u64| seen@.contains(x) <==> exists|j: int| 0 <= j < i + 1 && ids[j] == x by {
            if exists|j: int| 0 <= j < i + 1 && ids[j] == x {
                let j = choose|j: int| 0 <= j < i + 1 && ids[j] == x;
                if j < i {
                    assert(exists|k: int| 0 <= k < i && ids[k] == x);
                }
            }
            if seen@.contains(x) && x != id {
                let j = choose|j: int| 0 <= j < i && ids[j] == x;
                assert(0 <= j < i + 1 && ids[j] == x);
            }
        }
        i += 1;
    }
    Ok(())
}

/// Why a rating is refused, if it is.
pub open spec fn rating_error(rating: &RatingInput) -> Option<ValidationError> {
    if rating.tx_id == 0 {
        Some(ValidationError::InvalidTransactionId)
    } else if rating.score == 0 || rating.score > 5 {
        Some(ValidationError::InvalidRating)
    } else {
        None
    }
}

/// Validates one rating: its transaction id is not zero and its score lies
/// between 1 and 5.
pub fn validate_rating_input(rating: &RatingInput) -> (result: Result<(), ValidationError>)
    ensures
        match rating_error(rating) {
            Some(e) => result == Err::<(), ValidationError>(e),
            None => result is Ok,
        },
{
    if rating.tx_id == 0 {
        return Err(ValidationError::InvalidTransactionId);
    }
    if rating.score == 0 || rating.score > 5 {
        return Err(ValidationError::InvalidRating);
    }
    Ok(())
}

/// The fault of each rating of a batch.
pub open spec fn rating_errors(inputs: Seq<RatingInput>) -> Seq<Option<ValidationError>> {
    Seq::new(inputs.len(), |i: int| rating_error(&inputs[i]))
}

/// Validates a batch of ratings: its size, then each rating.
pub fn validate_rating_inputs(inputs: &Vec<RatingInput>) -> (result: Result<(), ValidationError>)
    ensures
        batch_result(rating_errors(inputs@), result),
{
    if inputs.len() == 0 {
        return Err(ValidationError::EmptyBatch);
    }
    if inputs.len() > MAX_BATCH_SIZE {
        return Err(ValidationError::BatchTooLarge);
    }
    let ghost errors = rating_errors(inputs@);
    let mut i: usize = 0;
    while i < inputs.len()
        invariant
            i <= inputs@.len(),
            0 < inputs@.len() <= MAX_BATCH_SIZE,
            errors == rating_errors(inputs@),
            forall|j: int| 0 <= j < i ==> (#[trigger] errors[j]) is None,
        decreases inputs@.len() - i,
    {
        match validate_rating_input(&inputs[i]) {
            Err(e) => {
                assert(errors[i as int] == Some(e));
                return Err(e);
            },
            Ok(()) => {},
        }
        i += 1;
    }
    Ok(())
}

/// Why a status update is refused, if it is.
pub open spec fn status_update_error(update: &TransactionStatusUpdate) -> Option<ValidationError> {
    if update.tx_id == 0 {
        Some(ValidationError::InvalidTransactionId)
    } else {
        None
    }
}

/// Validates one status update: its transaction id is not zero.
pub fn validate_transaction_status_update(update: &TransactionStatusUpdate) -> (result: Result<
    (),
    ValidationError,
>)
    ensures
        match status_update_error(update) {
            Some(e) => result == Err::<(), ValidationError>(e),
            None => result is Ok,
        },
{
    if update.tx_id == 0 {
        return Err(ValidationError::InvalidTransactionId);
    }
    Ok(())
}

/// The transaction ids of a batch of status updates.
pub open spec fn update_ids(updates: Seq<TransactionStatusUpdate>) -> Seq<u64> {
    Seq::new(updates.len(), |i: int| updates[i].tx_id)
}

/// The fault of each status update of a batch.
pub open spec fn update_errors(updates: Seq<TransactionStatusUpdate>) -> Seq<Option<ValidationError>> {
    Seq::new(
        updates.len(),
        |i: int| keyed_item_error(update_ids(updates), status_update_error(&updates[i]), i),
    )
}

/// Validates a batch of status updates: its size, then each update, which
/// must not repeat the transaction id of an earlier one.
pub fn validate_transaction_status_updates(updates: &Vec<TransactionStatusUpdate>) -> (result: Result<
    (),
    ValidationError,
>)
    ensures
        batch_result(update_errors(updates@), result),
{
    if updates.len() == 0 {
        return Err(ValidationError::EmptyBatch);
    }
    if updates.len() > MAX_BATCH_SIZE {
        return Err(ValidationError::BatchTooLarge);
    }
    let ghost ids = update_ids(updates@);
    let ghost errors = update_errors(updates@);
    let mut seen: HashSet<u64> = HashSet::new();
    let mut i: usize = 0;
    while i < updates.len()
        invariant
            i <= updates@.len(),
            ids == update_ids(updates@),
            0 < updates@.len() <= MAX_BATCH_SIZE,
            errors == update_errors(updates@),
            forall|j: int| 0 <= j < i ==> (#[trigger] errors[j]) is None,
            forall|id: u64| seen@.contains(id) <==> exists|j: int| 0 <= j < i && ids[j] == id,
        decreases updates@.len() - i,
    {
        let id = updates[i].tx_id;
        assert(ids[i as int] == id);
        if seen.contains(&id) {
            assert(errors[i as int] == Some(ValidationError::DuplicateTransactionId));
            return Err(ValidationError::DuplicateTransactionId);
        }
        seen.insert(id);
        match validate_transaction_status_update(&updates[i]) {
            Err(e) => {
                assert(errors[i as int] == Some(e));
                return Err(e);
            },
            Ok(()) => {},
        }
        assert forall|x: u64| seen@.contains(x) <==> exists|j: int| 0 <= j < i + 1 && ids[j] == x by {
            if exists|j: int| 0 <= j < i + 1 && ids[j] == x {
                let j = choose|j: int| 0 <= j < i + 1 && ids[j] == x;
                if j < i {
                    assert(exists|k: int| 0 <= k < i && ids[k] == x);
                }
            }
            if seen@.contains(x) && x != id {
                let j = choose|j: int| 0 <= j < i && ids[j] == x;
                assert(0 <= j < i + 1 && ids[j] == x);
            }
        }
        i += 1;
    }
    Ok(())
}

/// Why a bundled transaction is refused, if it is: for its transaction,
/// for a sender that is also the recipient, or for its memo.
pub open spec fn bundled_error(bundled: &BundledTransaction) -> Option<ValidationError> {
    if transaction_error(&bundled.transaction) is Some {
        transaction_error(&bundled.transaction)
    } else if bundled.transaction.from@ == bundled.transaction.to@ {
        Some(ValidationError::SameAddress)
    } else if bundled.memo is Some && !text_ok(bundled.memo->Some_0@) {
        Some(ValidationError::InvalidMemo)
    } else {
        None
    }
}

/// Validates one bundled transaction against `bundled_error`.
pub fn validate_bundled_transaction(bundled_tx: &BundledTransaction) -> (result: Result<
    (),
    ValidationError,
>)
    ensures
        match bundled_error(bundled_tx) {
            Some(e) => result == Err::<(), ValidationError>(e),
            None => result is Ok,
        },
{
    match validate_transaction(&bundled_tx.transaction) {
        Err(e) => {
            return Err(e);
        },
        Ok(()) => {},
    }
    if bundled_tx.transaction.from.same(&bundled_tx.transaction.to) {
        return Err(ValidationError::SameAddress);
    }
    match &bundled_tx.memo {
        Some(memo) => {
            if !check_text(memo) {
                return Err(ValidationError::InvalidMemo);
            }
        },
        None => {},
    }
    Ok(())
}

/// The fault of each bundled transaction of a batch.
pub open spec fn bundled_errors(bundled: Seq<BundledTransaction>) -> Seq<Option<ValidationError>> {
    Seq::new(bundled.len(), |i: int| bundled_error(&bundled[i]))
}

/// Validates a batch of bundled transactions: its size, then each of them.
pub fn validate_bundled_transactions(bundled_txs: &Vec<BundledTransaction>) -> (result: Result<
    (),
    ValidationError,
>)
    ensures
        batch_result(bundled_errors(bundled_txs@), result),
{
    if bundled_txs.len() == 0 {
        return Err(ValidationError::EmptyBatch);
    }
    if bundled_txs.len() > MAX_BATCH_SIZE {
        return Err(ValidationError::BatchTooLarge);
    }
    let ghost errors = bundled_errors(bundled_txs@);
    let mut i: usize = 0;
    while i < bundled_txs.len()
        invariant
            i <= bundled_txs@.len(),
            0 < bundled_txs@.len() <= MAX_BATCH_SIZE,
            errors == bundled_errors(bundled_txs@),
            forall|j: int| 0 <= j < i ==> (#[trigger] errors[j]) is None,
        decreases bundled_txs@.len() - i,
    {
        match validate_bundled_transaction(&bundled_txs[i]) {
            Err(e) => {
                assert(errors[i as int] == Some(e));
                return Err(e);
            },
            Ok(()) => {},
        }
        i += 1;
    }
    Ok(())
}

/// A year is valid from 2000 to 2100, a month from 1 to 12; the year is
/// checked first.
pub fn validate_year_month(year: u32, month: u32) -> (result: Result<(), ValidationError>)
    ensures
        year < 2000 || year > 2100 ==> result == Err::<(), ValidationError>(ValidationError::InvalidYear),
        2000 <= year <= 2100 && (month < 1 || month > 12) ==> result == Err::<(), ValidationError>(
            ValidationError::InvalidMonth,
        ),
        2000 <= year <= 2100 && 1 <= month <= 12 ==> result is Ok,
{
    if year < 2000 || year > 2100 {
        return Err(ValidationError::InvalidYear);
    }
    if month < 1 || month > 12 {
        return Err(ValidationError::InvalidMonth);
    }
    Ok(())
}

/// A share in basis points is valid up to 10000, which is the whole.
pub fn validate_percentage_basis_points(bps: u32) -> (result: Result<(), ValidationError>)
    ensures
        bps <= 10000 ==> result is Ok,
        bps > 10000 ==> result == Err::<(), ValidationError>(ValidationError::InvalidPercentage),
{
    if bps > 10000 {
        return Err(ValidationError::InvalidPercentage);
    }
    Ok(())
}

/// Two accounts must differ.
pub fn validate_different_addresses(addr1: &Account, addr2: &Account) -> (result: Result<
    (),
    ValidationError,
>)
    ensures
        addr1@ != addr2@ ==> result is Ok,
        addr1@ == addr2@ ==> result == Err::<(), ValidationError>(ValidationError::SameAddress),
{
    if addr1.same(addr2) {
        return Err(ValidationError::SameAddress);
    }
    Ok(())
}

/// An asset identifier is valid when it is not empty.
pub fn validate_asset_type(asset_identifier: &str) -> (result: Result<(), ValidationError>)
    ensures
        asset_identifier@.len() > 0 ==> result is Ok,
        asset_identifier@.len() == 0 ==> result == Err::<(), ValidationError>(
            ValidationError::InvalidCategory,
        ),
{
    if asset_identifier.is_empty() {
        return Err(ValidationError::InvalidCategory);
    }
    Ok(())
}

/// An amount of any asset is valid when it is positive.
pub fn validate_asset_amount(asset_identifier: &str, amount: i128) -> (result: Result<(), ValidationError>)
    ensures
        amount > 0 ==> result is Ok,
        amount <= 0 ==> result == Err::<(), ValidationError>(ValidationError::InvalidAmount),
{
    validate_amount(amount)
}

/// Amounts of any asset are valid when each of them is positive.
pub fn validate_asset_amounts(asset_identifier: &str, amounts: &[i128]) -> (result: Result<
    (),
    ValidationError,
>)
    ensures
        result is Ok <==> forall|i: int| 0 <= i < amounts@.len() ==> amounts@[i] > 0,
        result is Err ==> result == Err::<(), ValidationError>(ValidationError::InvalidAmount),
{
    let mut i: usize = 0;
    while i < amounts.len()
        invariant
            i <= amounts@.len(),
            forall|j: int| 0 <= j < i ==> amounts@[j] > 0,
        decreases amounts@.len() - i,
    {
        match validate_asset_amount(asset_identifier, amounts[i]) {
            Err(e) => {
                return Err(e);
            },
            Ok(()) => {},
        }
        i += 1;
    }
    Ok(())
}

} // verus!
