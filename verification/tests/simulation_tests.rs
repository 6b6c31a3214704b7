use stellarspend::account::Account;
use stellarspend::simulation::{simulate_transaction, SimulationError, Transaction, TransactionOutcome};

#[test]
fn test_simulate_valid_transaction() {
    let tx = Transaction::mock_valid();
    let result = simulate_transaction(&tx);
    assert!(result.is_ok());
    let outcome = result.unwrap();
    assert_eq!(outcome, tx.project_outcome());
}

#[test]
fn test_simulate_invalid_transaction() {
    let tx = Transaction::mock_invalid();
    let result = simulate_transaction(&tx);
    assert_eq!(result, Err(SimulationError::InvalidParameters));
}

#[test]
fn simulation_projects_the_balances_of_a_transfer() {
    let tx = Transaction::mock_valid();
    assert!(tx.is_valid());
    assert_eq!(simulate_transaction(&tx), Ok(TransactionOutcome { from_balance: 700, to_balance: 300 }));
    // The snapshot is not touched.
    assert_eq!(tx.from_balance, 1000);
    assert_eq!(tx.to_balance, 0);

    let transfer = |amount: i128, from_balance: i128, to_balance: i128| Transaction {
        from: Account::new("a"),
        to: Account::new("b"),
        amount,
        from_balance,
        to_balance,
    };
    assert_eq!(
        simulate_transaction(&transfer(5, 5, i128::MAX - 5)),
        Ok(TransactionOutcome { from_balance: 0, to_balance: i128::MAX })
    );
    assert_eq!(simulate_transaction(&transfer(5, 5, i128::MAX - 4)), Err(SimulationError::InvalidParameters));
    assert_eq!(simulate_transaction(&transfer(0, 5, 0)), Err(SimulationError::InvalidParameters));
    assert_eq!(simulate_transaction(&transfer(-1, 5, 0)), Err(SimulationError::InvalidParameters));
    assert_eq!(simulate_transaction(&transfer(6, 5, 0)), Err(SimulationError::InvalidParameters));

    let own = |amount: i128, from_balance: i128, to_balance: i128| Transaction {
        from: Account::new("a"),
        to: Account::new("a"),
        amount,
        from_balance,
        to_balance,
    };
    assert_eq!(
        simulate_transaction(&own(5, i128::MAX, i128::MAX)),
        Ok(TransactionOutcome { from_balance: i128::MAX, to_balance: i128::MAX })
    );
    assert_eq!(simulate_transaction(&own(5, 10, 11)), Err(SimulationError::InvalidParameters));
}

#[test]
fn test_simulation_valid_transaction() {
    let tx = Transaction::mock_valid();
    let result = simulate_transaction(&tx);
    assert!(result.is_ok());
    let outcome = result.unwrap();
    assert_eq!(outcome, tx.project_outcome());
}

#[test]
fn test_simulation_invalid_transaction() {
    let tx = Transaction::mock_invalid();
    let result = simulate_transaction(&tx);
    assert_eq!(result, Err(SimulationError::InvalidParameters));
}
