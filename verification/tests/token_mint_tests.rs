use stellarspend::account::Account;
use stellarspend::token_mint::{
    is_valid_amount, is_valid_token_address, validate_batch, validate_mint_request,
    BatchMintMetrics, BatchTokenMintContract, BatchTokenMintError, MintEvent, MintResult,
    TokenMintRequest, TokenMinted, INVALID_AMOUNT, MAX_MINT_AMOUNT, MIN_MINT_AMOUNT,
};

fn create_valid_request() -> TokenMintRequest {
    TokenMintRequest {
        recipient: Account::new("recipient"),
        amount: 100_000_000, // 0.1 XLM in stroops
    }
}

#[test]
fn test_valid_mint_request() {
    let request = create_valid_request();
    assert!(validate_mint_request(&request).is_ok());
}

#[test]
fn test_invalid_amount_zero() {
    let mut request = create_valid_request();
    request.amount = 0;
    assert_eq!(validate_mint_request(&request), Err(INVALID_AMOUNT));
}

#[test]
fn test_invalid_amount_negative() {
    let mut request = create_valid_request();
    request.amount = -1000;
    assert_eq!(validate_mint_request(&request), Err(INVALID_AMOUNT));
}

#[test]
fn test_invalid_amount_too_large() {
    let mut request = create_valid_request();
    request.amount = MAX_MINT_AMOUNT + 1;
    assert_eq!(validate_mint_request(&request), Err(INVALID_AMOUNT));
}

#[test]
fn test_is_valid_amount() {
    assert!(is_valid_amount(MIN_MINT_AMOUNT));
    assert!(is_valid_amount(MAX_MINT_AMOUNT));
    assert!(is_valid_amount(100_000_000));
    assert!(!is_valid_amount(0));
    assert!(!is_valid_amount(-1000));
    assert!(!is_valid_amount(MAX_MINT_AMOUNT + 1));
}

#[test]
fn test_validate_batch() {
    let mut requests: Vec<TokenMintRequest> = Vec::new();

    assert!(validate_batch(&requests).is_err());

    requests.push(create_valid_request());
    assert!(validate_batch(&requests).is_ok());
}

fn request(recipient: &str, amount: i128) -> TokenMintRequest {
    TokenMintRequest { recipient: Account::new(recipient), amount }
}

#[test]
fn batch_mint_processes_each_request() {
    let mut contract = BatchTokenMintContract::new();
    let admin = Account::new("admin");
    let token = Account::new("token");
    contract.initialize(admin.clone()).unwrap();
    let requests = vec![
        request("r1", 100),
        request("r2", 0),
        request("r3", 2_000_000_000),
        request("r4", MAX_MINT_AMOUNT + 1),
        request("r5", 7),
    ];
    let result = contract.batch_mint_tokens(admin.clone(), token.clone(), requests, 77).unwrap();
    assert_eq!(result.batch_id, 1);
    assert_eq!(result.token_address, token);
    assert_eq!(result.total_requests, 5);
    assert_eq!(result.successful, 3);
    assert_eq!(result.failed, 2);
    let minted = |recipient: &str, amount: i128| {
        MintResult::Success(TokenMinted {
            token_address: Account::new("token"),
            recipient: Account::new(recipient),
            amount,
            minted_at: 77,
        })
    };
    assert_eq!(
        result.results,
        vec![
            minted("r1", 100),
            MintResult::Failure(Account::new("r2"), INVALID_AMOUNT),
            minted("r3", 2_000_000_000),
            MintResult::Failure(Account::new("r4"), INVALID_AMOUNT),
            minted("r5", 7),
        ]
    );
    assert_eq!(
        result.metrics,
        BatchMintMetrics {
            total_requests: 5,
            successful_mints: 3,
            failed_mints: 2,
            total_amount_minted: 2_000_000_107,
            avg_mint_amount: 666_666_702,
            processed_at: 77,
        }
    );
    assert_eq!(contract.get_last_batch_id(), 1);
    assert_eq!(contract.get_total_minted(), 2_000_000_107);
    assert_eq!(contract.get_total_batches_processed(), 1);

    let events = BatchTokenMintContract::batch_events(&result);
    assert_eq!(
        events,
        vec![
            MintEvent::BatchStarted { batch_id: 1, token: token.clone(), count: 5 },
            MintEvent::TokensMinted { batch_id: 1, token: token.clone(), recipient: Account::new("r1"), amount: 100 },
            MintEvent::MintFailed { batch_id: 1, token: token.clone(), recipient: Account::new("r2"), error_code: 0 },
            MintEvent::TokensMinted {
                batch_id: 1,
                token: token.clone(),
                recipient: Account::new("r3"),
                amount: 2_000_000_000
            },
            MintEvent::LargeMint {
                batch_id: 1,
                token: token.clone(),
                recipient: Account::new("r3"),
                amount: 2_000_000_000
            },
            MintEvent::MintFailed { batch_id: 1, token: token.clone(), recipient: Account::new("r4"), error_code: 0 },
            MintEvent::TokensMinted { batch_id: 1, token: token.clone(), recipient: Account::new("r5"), amount: 7 },
            MintEvent::BatchCompleted {
                batch_id: 1,
                token: token.clone(),
                successful: 3,
                failed: 2,
                total_amount: 2_000_000_107
            },
        ]
    );
    assert_eq!(events[4].topics(), ("mint", "large"));

    // A batch in which nothing can be minted is still a batch.
    let result = contract.batch_mint_tokens(admin, token, vec![request("r1", -1)], 78).unwrap();
    assert_eq!(result.batch_id, 2);
    assert_eq!(result.metrics.avg_mint_amount, 0);
    assert_eq!(result.metrics.total_amount_minted, 0);
    assert_eq!(contract.get_total_minted(), 2_000_000_107);
    assert_eq!(contract.get_total_batches_processed(), 2);
}

#[test]
fn batch_mint_refusals_change_nothing() {
    let mut contract = BatchTokenMintContract::new();
    let admin = Account::new("admin");
    let token = Account::new("token");
    assert_eq!(
        contract.batch_mint_tokens(admin.clone(), token.clone(), vec![request("r", 1)], 1),
        Err(BatchTokenMintError::NotInitialized)
    );
    assert_eq!(contract.get_admin(), Err("Contract not initialized"));
    assert_eq!(contract.initialize(admin.clone()), Ok(()));
    assert_eq!(contract.initialize(admin.clone()), Err("Contract already initialized"));
    assert_eq!(
        contract.batch_mint_tokens(token.clone(), token.clone(), vec![request("r", 1)], 1),
        Err(BatchTokenMintError::Unauthorized)
    );
    assert_eq!(
        contract.batch_mint_tokens(admin.clone(), token.clone(), vec![], 1),
        Err(BatchTokenMintError::EmptyBatch)
    );
    let many: Vec<TokenMintRequest> = (0..101).map(|_| request("r", 1)).collect();
    assert_eq!(
        contract.batch_mint_tokens(admin.clone(), token.clone(), many, 1),
        Err(BatchTokenMintError::BatchTooLarge)
    );
    assert_eq!(contract.get_last_batch_id(), 0);
    assert_eq!(contract.get_total_batches_processed(), 0);
    let full: Vec<TokenMintRequest> = (0..100).map(|_| request("r", MAX_MINT_AMOUNT)).collect();
    let result = contract.batch_mint_tokens(admin.clone(), token.clone(), full, 1).unwrap();
    assert_eq!(result.successful, 100);
    assert_eq!(result.metrics.total_amount_minted, 100 * MAX_MINT_AMOUNT);
    assert_eq!(result.metrics.avg_mint_amount, MAX_MINT_AMOUNT);
    assert_eq!(contract.set_admin(token.clone(), token.clone()), Err(BatchTokenMintError::Unauthorized));
    assert_eq!(contract.set_admin(admin, token.clone()), Ok(()));
    assert_eq!(contract.get_admin(), Ok(token));
    assert_eq!(BatchTokenMintError::BatchTooLarge.code(), 5);
    assert!(is_valid_token_address(&Account::new("")));
}
