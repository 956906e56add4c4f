use ledger_engine::ClientRecords;
use ledger_engine::ProcessTransactionError;
use ledger_engine::Transaction;
use ledger_engine::TransactionType;

#[test]
fn an_empty_run_changes_nothing() {
    let mut records = ClientRecords::new();
    assert_eq!(records.process_transactions(&[]), Ok(vec![]));
    assert!(records.view().is_empty());
}

#[test]
fn a_run_skips_rejections_and_collects_them_in_order() {
    let transactions = vec![
        Transaction::new_withdrawal_txn(1, 1, 10_000),
        Transaction::new_deposit_txn(1, 1, 100_000),
        Transaction::new_deposit_txn(2, 1, 5_000),
        Transaction::new_withdrawal_txn(1, 2, 150_000),
        Transaction::new_dispute_txn(2, 1),
        Transaction::new_resolve_txn(1, 1),
        Transaction::new_dispute_txn(1, 1),
        Transaction::new_chargeback_txn(1, 1),
        Transaction::new_withdrawal_txn(1, 3, 1),
        Transaction::new_chargeback_txn(1, 9),
    ];
    let mut records = ClientRecords::new();
    let rejections = records.process_transactions(&transactions);
    assert_eq!(
        rejections,
        Ok(vec![
            ProcessTransactionError::InsufficientFunds(1, TransactionType::Withdrawal),
            ProcessTransactionError::DuplicateTransaction(1),
            ProcessTransactionError::InsufficientFunds(2, TransactionType::Withdrawal),
            ProcessTransactionError::MissingTransaction(1, 2, TransactionType::Dispute),
            ProcessTransactionError::InvalidTransactionState(
                1,
                TransactionType::Resolve,
                TransactionType::Deposit
            ),
            ProcessTransactionError::ClientAccountFrozen(3, TransactionType::Withdrawal, 1),
            ProcessTransactionError::MissingTransaction(9, 1, TransactionType::Chargeback),
        ])
    );
    let first = records.view().get(&1).unwrap();
    assert_eq!(first.available_amounts, 0);
    assert_eq!(first.held_amounts, 0);
    assert_eq!(first.is_locked, true);
    let second = records.view().get(&2).unwrap();
    assert_eq!(second.available_amounts, 0);
    assert_eq!(second.held_amounts, 0);
    assert_eq!(second.is_locked, false);
    assert_eq!(records.view().len(), 2);
}

#[test]
fn a_run_ends_where_one_by_one_processing_ends() {
    let transactions = vec![
        Transaction::new_deposit_txn(7, 1, 30_000),
        Transaction::new_deposit_txn(8, 2, 40_000),
        Transaction::new_dispute_txn(7, 1),
        Transaction::new_withdrawal_txn(8, 3, 15_000),
        Transaction::new_withdrawal_txn(7, 4, 1),
        Transaction::new_resolve_txn(7, 1),
        Transaction::new_withdrawal_txn(7, 5, 1),
    ];
    let mut at_once = ClientRecords::new();
    let rejections = at_once.process_transactions(&transactions).unwrap();

    let mut one_by_one = ClientRecords::new();
    let mut expected = vec![];
    for txn in &transactions {
        if let Err(failure) = one_by_one.process_transaction(txn) {
            expected.push(failure.rejection().unwrap());
        }
    }
    assert_eq!(rejections, expected);
    assert_eq!(
        rejections,
        vec![ProcessTransactionError::InsufficientFunds(
            4,
            TransactionType::Withdrawal
        )]
    );
    assert_eq!(at_once.view(), one_by_one.view());
    assert_eq!(at_once.view().get(&7).unwrap().available_amounts, 29_999);
    assert_eq!(at_once.view().get(&8).unwrap().available_amounts, 25_000);
}

#[test]
fn a_run_continues_from_the_state_it_finds() {
    let mut records = ClientRecords::new();
    assert_eq!(
        records.process_transactions(&[Transaction::new_deposit_txn(1, 1, 10)]),
        Ok(vec![])
    );
    assert_eq!(
        records.process_transactions(&[
            Transaction::new_deposit_txn(1, 1, 10),
            Transaction::new_withdrawal_txn(1, 2, 4),
        ]),
        Ok(vec![ProcessTransactionError::DuplicateTransaction(1)])
    );
    assert_eq!(records.view().get(&1).unwrap().available_amounts, 6);
}
