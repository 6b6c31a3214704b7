use stellarspend::account::Account;
use stellarspend::analytics::types::{
    BundledTransaction, RatingInput, RefundRequest, Transaction, TransactionStatus,
    TransactionStatusUpdate, ValidationError,
};
use stellarspend::analytics::validation::{
    validate_address, validate_amount, validate_amounts, validate_asset_amount, validate_asset_amounts,
    validate_asset_type, validate_bundled_transaction, validate_bundled_transactions,
    validate_different_addresses, validate_percentage_basis_points, validate_rating_input,
    validate_rating_inputs, validate_refund_request, validate_refund_requests, validate_transaction,
    validate_transaction_status_update, validate_transaction_status_updates, validate_transactions,
    validate_user_address, validate_year_month,
};

fn create_test_transaction(tx_id: u64, amount: i128, category: &str) -> Transaction {
    Transaction {
        tx_id,
        from: Account::new("from"),
        to: Account::new("to"),
        amount,
        timestamp: 12345,
        category: String::from(category),
    }
}

#[test]
fn test_validate_positive_amount() {
    assert!(validate_amount(100).is_ok());
    assert!(validate_amount(1).is_ok());
}

#[test]
fn test_validate_zero_or_negative_amount() {
    assert!(validate_amount(0).is_err());
    assert!(validate_amount(-1).is_err());
    assert!(validate_amount(-100).is_err());
}

#[test]
fn test_validate_transaction_valid() {
    let transaction = create_test_transaction(1, 100, "transfer");
    assert!(validate_transaction(&transaction).is_ok());
}

#[test]
fn test_validate_transaction_invalid_amount() {
    let transaction = create_test_transaction(1, -100, "transfer");
    assert!(validate_transaction(&transaction).is_err());
}

#[test]
fn test_validate_refund_request_valid() {
    let request = RefundRequest { tx_id: 1, reason: Some(String::from("test")) };
    assert!(validate_refund_request(&request).is_ok());
}

#[test]
fn test_validate_refund_request_invalid_tx_id() {
    let request = RefundRequest { tx_id: 0, reason: Some(String::from("test")) };
    assert!(validate_refund_request(&request).is_err());
}

#[test]
fn test_validate_rating_input_valid() {
    let input = RatingInput { tx_id: 1, score: 5 };
    assert!(validate_rating_input(&input).is_ok());
}

#[test]
fn test_validate_rating_input_invalid_score() {
    let input = RatingInput {
        tx_id: 1,
        score: 0, // Invalid
    };
    assert!(validate_rating_input(&input).is_err());

    let input2 = RatingInput {
        tx_id: 1,
        score: 6, // Invalid
    };
    assert!(validate_rating_input(&input2).is_err());
}

#[test]
fn test_validate_year_month_valid() {
    assert!(validate_year_month(2023, 1).is_ok());
    assert!(validate_year_month(2023, 12).is_ok());
    assert!(validate_year_month(2100, 6).is_ok());
}

#[test]
fn test_validate_year_month_invalid() {
    assert!(validate_year_month(1999, 6).is_err()); // Year too early
    assert!(validate_year_month(2101, 6).is_err()); // Year too late
    assert!(validate_year_month(2023, 0).is_err()); // Month too early
    assert!(validate_year_month(2023, 13).is_err()); // Month too late
}

#[test]
fn test_validate_percentage_basis_points() {
    assert!(validate_percentage_basis_points(0).is_ok());
    assert!(validate_percentage_basis_points(5000).is_ok()); // 50%
    assert!(validate_percentage_basis_points(10000).is_ok()); // 100%
    assert!(validate_percentage_basis_points(10001).is_err()); // Over 100%
}

#[test]
fn test_validate_asset_type() {
    assert!(validate_asset_type("USDC").is_ok());
    assert!(validate_asset_type("XLM").is_ok());
    assert!(validate_asset_type("").is_err()); // Empty asset identifier
}

#[test]
fn test_validate_asset_amount() {
    assert!(validate_asset_amount("USDC", 100).is_ok());
    assert!(validate_asset_amount("XLM", 1).is_ok());
    assert!(validate_asset_amount("USDC", 0).is_err()); // Zero amount
    assert!(validate_asset_amount("USDC", -1).is_err()); // Negative amount
}

#[test]
fn test_validate_asset_amounts() {
    let amounts = vec![100, 200, 300];
    assert!(validate_asset_amounts("USDC", &amounts).is_ok());

    let invalid_amounts = vec![100, -1, 300]; // Contains negative
    assert!(validate_asset_amounts("USDC", &invalid_amounts).is_err());
}

#[test]
fn test_validate_different_addresses() {
    let addr1 = Account::new("addr1");
    let addr2 = Account::new("addr2");

    assert!(validate_different_addresses(&addr1, &addr2).is_ok());
    assert!(validate_different_addresses(&addr1, &addr1).is_err()); // Same addresses
}

#[test]
fn single_item_errors_are_exact() {
    assert_eq!(validate_amount(0), Err(ValidationError::InvalidAmount));
    assert_eq!(validate_amounts(&[]), Ok(()));
    assert_eq!(validate_amounts(&[1, 2, 0]), Err(ValidationError::InvalidAmount));
    assert_eq!(validate_address(&Account::new("")), Err(ValidationError::InvalidAddress));
    assert_eq!(validate_user_address(&Account::new("GABC")), Ok(()));
    assert_eq!(validate_year_month(1999, 13), Err(ValidationError::InvalidYear));
    assert_eq!(validate_year_month(2000, 13), Err(ValidationError::InvalidMonth));
    assert_eq!(validate_year_month(2000, 1), Ok(()));
    assert_eq!(validate_percentage_basis_points(10001), Err(ValidationError::InvalidPercentage));
    assert_eq!(validate_asset_type(""), Err(ValidationError::InvalidCategory));
    assert_eq!(validate_asset_amount("", 5), Ok(()));
    assert_eq!(
        validate_different_addresses(&Account::new("a"), &Account::new("a")),
        Err(ValidationError::SameAddress)
    );
    assert_eq!(
        validate_rating_input(&RatingInput { tx_id: 0, score: 9 }),
        Err(ValidationError::InvalidTransactionId)
    );
    assert_eq!(
        validate_rating_input(&RatingInput { tx_id: 3, score: 9 }),
        Err(ValidationError::InvalidRating)
    );
    assert_eq!(validate_rating_input(&RatingInput { tx_id: 3, score: 1 }), Ok(()));
    assert_eq!(
        validate_transaction_status_update(&TransactionStatusUpdate {
            tx_id: 0,
            status: TransactionStatus::Completed
        }),
        Err(ValidationError::InvalidTransactionId)
    );
}

#[test]
fn transaction_checks_come_in_order() {
    let mut tx = create_test_transaction(1, 0, "");
    tx.from = Account::new("");
    assert_eq!(validate_transaction(&tx), Err(ValidationError::InvalidAddress));
    tx.from = Account::new("from");
    tx.to = Account::new("");
    assert_eq!(validate_transaction(&tx), Err(ValidationError::InvalidAddress));
    tx.to = Account::new("to");
    assert_eq!(validate_transaction(&tx), Err(ValidationError::InvalidAmount));
    tx.amount = 1;
    assert_eq!(validate_transaction(&tx), Err(ValidationError::InvalidCategory));
    tx.category = String::from("x");
    assert_eq!(validate_transaction(&tx), Ok(()));
    // A timestamp is never refused.
    tx.timestamp = u64::MAX;
    assert_eq!(validate_transaction(&tx), Ok(()));
}

#[test]
fn reasons_and_memos_are_bounded_texts() {
    let long = "x".repeat(255);
    let too_long = "x".repeat(256);
    assert_eq!(validate_refund_request(&RefundRequest { tx_id: 1, reason: None }), Ok(()));
    assert_eq!(validate_refund_request(&RefundRequest { tx_id: 1, reason: Some(long.clone()) }), Ok(()));
    assert_eq!(
        validate_refund_request(&RefundRequest { tx_id: 1, reason: Some(too_long.clone()) }),
        Err(ValidationError::InvalidReason)
    );
    assert_eq!(
        validate_refund_request(&RefundRequest { tx_id: 1, reason: Some(String::new()) }),
        Err(ValidationError::InvalidReason)
    );
    let bundle = |memo: Option<String>| BundledTransaction {
        transaction: create_test_transaction(1, 10, "rent"),
        memo,
    };
    assert_eq!(validate_bundled_transaction(&bundle(None)), Ok(()));
    assert_eq!(validate_bundled_transaction(&bundle(Some(long))), Ok(()));
    assert_eq!(validate_bundled_transaction(&bundle(Some(too_long))), Err(ValidationError::InvalidMemo));
    assert_eq!(validate_bundled_transaction(&bundle(Some(String::new()))), Err(ValidationError::InvalidMemo));
    let mut same = bundle(None);
    same.transaction.to = Account::new("from");
    assert_eq!(validate_bundled_transaction(&same), Err(ValidationError::SameAddress));
    same.transaction.amount = 0;
    assert_eq!(validate_bundled_transaction(&same), Err(ValidationError::InvalidAmount));
}

#[test]
fn batches_are_bounded_and_fail_on_their_first_bad_item() {
    assert_eq!(validate_transactions(&vec![]), Err(ValidationError::EmptyBatch));
    let full: Vec<Transaction> = (0..100).map(|i| create_test_transaction(i + 1, 5, "c")).collect();
    assert_eq!(validate_transactions(&full), Ok(()));
    let over: Vec<Transaction> = (0..101).map(|i| create_test_transaction(i + 1, 5, "c")).collect();
    assert_eq!(validate_transactions(&over), Err(ValidationError::BatchTooLarge));
    let mixed = vec![
        create_test_transaction(1, 5, "c"),
        create_test_transaction(2, 5, ""),
        create_test_transaction(3, 0, "c"),
    ];
    assert_eq!(validate_transactions(&mixed), Err(ValidationError::InvalidCategory));

    assert_eq!(validate_rating_inputs(&vec![]), Err(ValidationError::EmptyBatch));
    assert_eq!(
        validate_rating_inputs(&vec![RatingInput { tx_id: 1, score: 5 }; 101]),
        Err(ValidationError::BatchTooLarge)
    );
    assert_eq!(
        validate_rating_inputs(&vec![RatingInput { tx_id: 1, score: 5 }, RatingInput { tx_id: 1, score: 7 }]),
        Err(ValidationError::InvalidRating)
    );
    assert_eq!(validate_rating_inputs(&vec![RatingInput { tx_id: 1, score: 5 }; 100]), Ok(()));

    assert_eq!(validate_bundled_transactions(&vec![]), Err(ValidationError::EmptyBatch));
    assert_eq!(
        validate_bundled_transactions(&vec![BundledTransaction {
            transaction: create_test_transaction(1, 5, "c"),
            memo: Some(String::from("m")),
        }]),
        Ok(())
    );
}

#[test]
fn keyed_batches_refuse_repeated_ids() {
    let request = |tx_id: u64| RefundRequest { tx_id, reason: None };
    assert_eq!(validate_refund_requests(&vec![]), Err(ValidationError::EmptyBatch));
    assert_eq!(validate_refund_requests(&vec![request(1), request(2), request(3)]), Ok(()));
    assert_eq!(
        validate_refund_requests(&vec![request(1), request(2), request(1)]),
        Err(ValidationError::DuplicateTransactionId)
    );
    // The first bad item decides: the zero id comes before the repetition.
    assert_eq!(
        validate_refund_requests(&vec![request(1), request(0), request(1)]),
        Err(ValidationError::InvalidTransactionId)
    );
    // A repeated id is reported before the item's own fault.
    assert_eq!(
        validate_refund_requests(&vec![request(0), request(0)]),
        Err(ValidationError::InvalidTransactionId)
    );
    assert_eq!(
        validate_refund_requests(&vec![
            request(4),
            RefundRequest { tx_id: 4, reason: Some(String::new()) }
        ]),
        Err(ValidationError::DuplicateTransactionId)
    );
    let many: Vec<RefundRequest> = (0..101).map(|i| request(i + 1)).collect();
    assert_eq!(validate_refund_requests(&many), Err(ValidationError::BatchTooLarge));

    let update = |tx_id: u64| TransactionStatusUpdate { tx_id, status: TransactionStatus::Failed };
    assert_eq!(validate_transaction_status_updates(&vec![]), Err(ValidationError::EmptyBatch));
    assert_eq!(validate_transaction_status_updates(&vec![update(7), update(8)]), Ok(()));
    assert_eq!(
        validate_transaction_status_updates(&vec![update(7), update(7)]),
        Err(ValidationError::DuplicateTransactionId)
    );
    assert_eq!(
        validate_transaction_status_updates(&vec![update(7), update(0)]),
        Err(ValidationError::InvalidTransactionId)
    );
}
