use ledger_engine::ClientRecords;
use ledger_engine::ProcessTransactionError;
use ledger_engine::Transaction;
use ledger_engine::TransactionType;

/// An amount in ten-thousandths.
fn units(amount: f64) -> u64 {
    (amount * 10_000.0).round() as u64
}

fn check_client(records: &ClientRecords, id: u16, available: f64, held: f64) {
    let client = records.view().get(&id);
    assert!(client.is_some());
    let client = client.unwrap();
    assert_eq!(client.available_amounts, units(available) as u128);
    assert_eq!(client.held_amounts, units(held) as u128);
    assert!(client.available_amounts + client.held_amounts == client.total_amounts());
}

fn rejection(
    records: &mut ClientRecords,
    txn: &Transaction,
) -> Option<ProcessTransactionError> {
    let result = records.process_transaction(txn);
    assert!(result.is_err());
    result.unwrap_err().rejection()
}

#[test]
fn it_should_process_a_single_deposit() {
    let mut client_records = ClientRecords::new();
    let client_id = 1;
    let deposit_txn = Transaction::new_deposit_txn(client_id, 1, units(10.0));

    assert!(client_records.process_transaction(&deposit_txn).is_ok());
    check_client(&client_records, 1, 10.0, 0.0);
}

#[test]
fn it_should_process_a_deposit_followed_by_a_valid_withdrawal() {
    let mut client_records = ClientRecords::new();
    let client_id = 1;

    let deposit_txn = Transaction::new_deposit_txn(client_id, 1, units(10.0));
    let withdrawal_txn = Transaction::new_withdrawal_txn(client_id, 2, units(5.0));

    assert!(client_records.process_transaction(&deposit_txn).is_ok());
    assert!(client_records.process_transaction(&withdrawal_txn).is_ok());

    check_client(&client_records, 1, 5.0, 0.0);
}

#[test]
fn it_should_fail_to_process_a_withdrawal_if_there_are_insufficient_available_funds() {
    let mut client_records = ClientRecords::new();
    let client_id = 1;

    let withdrawal_txn_1 = Transaction::new_withdrawal_txn(client_id, 1, units(1.0));

    assert_eq!(
        rejection(&mut client_records, &withdrawal_txn_1),
        Some(ProcessTransactionError::InsufficientFunds(
            1,
            TransactionType::Withdrawal
        ))
    );
    check_client(&client_records, 1, 0.0, 0.0);

    let deposit_txn = Transaction::new_deposit_txn(client_id, 2, units(10.0));
    let withdrawal_txn_2 = Transaction::new_withdrawal_txn(client_id, 3, units(15.0));

    assert!(client_records.process_transaction(&deposit_txn).is_ok());
    assert_eq!(
        rejection(&mut client_records, &withdrawal_txn_2),
        Some(ProcessTransactionError::InsufficientFunds(
            3,
            TransactionType::Withdrawal
        ))
    );
    check_client(&client_records, 1, 10.0, 0.0);
}

#[test]
fn it_should_fail_process_the_same_deposit_twice_by_txn_id() {
    let mut client_records = ClientRecords::new();
    let client_id = 1;
    let deposit_txn = Transaction::new_deposit_txn(client_id, 1, units(10.0));

    assert!(client_records.process_transaction(&deposit_txn).is_ok());
    check_client(&client_records, 1, 10.0, 0.0);

    let deposit_txn_2 = Transaction::new_deposit_txn(client_id, 1, units(123.0));

    assert_eq!(
        rejection(&mut client_records, &deposit_txn_2),
        Some(ProcessTransactionError::DuplicateTransaction(1))
    );
    check_client(&client_records, 1, 10.0, 0.0);
}

#[test]
fn it_should_fail_process_the_same_withdrawal_twice_by_txn_id() {
    let mut client_records = ClientRecords::new();
    let client_id = 1;
    let deposit_txn = Transaction::new_deposit_txn(client_id, 1, units(10.0));

    assert!(client_records.process_transaction(&deposit_txn).is_ok());
    check_client(&client_records, 1, 10.0, 0.0);

    let withdrawal_txn_1 = Transaction::new_withdrawal_txn(client_id, 2, units(1.0));

    assert!(client_records.process_transaction(&withdrawal_txn_1).is_ok());
    check_client(&client_records, 1, 9.0, 0.0);

    let withdrawal_txn_2 = Transaction::new_withdrawal_txn(client_id, 2, units(5.0));

    assert_eq!(
        rejection(&mut client_records, &withdrawal_txn_2),
        Some(ProcessTransactionError::DuplicateTransaction(2))
    );
    check_client(&client_records, 1, 9.0, 0.0);
}

#[test]
fn it_should_be_able_to_dispute_a_deposit_txn() {
    let mut client_records = ClientRecords::new();
    let client_id = 1;
    let deposit_txn = Transaction::new_deposit_txn(client_id, 1, units(10.0));

    assert!(client_records.process_transaction(&deposit_txn).is_ok());
    check_client(&client_records, 1, 10.0, 0.0);

    let dispute_txn = Transaction::new_dispute_txn(client_id, 1);
    assert!(client_records.process_transaction(&dispute_txn).is_ok());
    check_client(&client_records, 1, 0.0, 10.0);
}

#[test]
fn it_should_fail_to_dispute_the_same_txn_twice() {
    let mut client_records = ClientRecords::new();
    let client_id = 1;
    let deposit_txn = Transaction::new_deposit_txn(client_id, 1, units(10.0));

    assert!(client_records.process_transaction(&deposit_txn).is_ok());
    check_client(&client_records, 1, 10.0, 0.0);

    let dispute_txn = Transaction::new_dispute_txn(client_id, 1);
    assert!(client_records.process_transaction(&dispute_txn).is_ok());
    check_client(&client_records, 1, 0.0, 10.0);

    assert_eq!(
        rejection(&mut client_records, &dispute_txn),
        Some(ProcessTransactionError::InvalidTransactionState(
            1,
            TransactionType::Dispute,
            TransactionType::Dispute,
        ))
    );
    check_client(&client_records, 1, 0.0, 10.0);
}

#[test]
fn it_should_fail_to_dispute_a_txn_that_doesnt_exist() {
    let mut client_records = ClientRecords::new();

    let dispute_txn = Transaction::new_dispute_txn(1, 1);
    assert_eq!(
        rejection(&mut client_records, &dispute_txn),
        Some(ProcessTransactionError::MissingTransaction(
            1,
            1,
            TransactionType::Dispute,
        ))
    );
}

#[test]
fn it_should_fail_to_dispute_a_txn_that_doesnt_exist_for_the_client() {
    let mut client_records = ClientRecords::new();
    let client_id = 1;
    let deposit_txn = Transaction::new_deposit_txn(client_id, 1, units(10.0));

    assert!(client_records.process_transaction(&deposit_txn).is_ok());
    check_client(&client_records, 1, 10.0, 0.0);

    let dispute_txn = Transaction::new_dispute_txn(2, 1);
    assert_eq!(
        rejection(&mut client_records, &dispute_txn),
        Some(ProcessTransactionError::MissingTransaction(
            1,
            2,
            TransactionType::Dispute,
        ))
    );
    check_client(&client_records, 1, 10.0, 0.0);
}

#[test]
fn it_should_fail_to_dispute_a_txn_where_funds_are_insufficient() {
    let mut client_records = ClientRecords::new();
    let client_id = 1;
    let deposit_txn = Transaction::new_deposit_txn(client_id, 1, units(10.0));

    assert!(client_records.process_transaction(&deposit_txn).is_ok());
    check_client(&client_records, 1, 10.0, 0.0);

    let withdraw_txn = Transaction::new_withdrawal_txn(client_id, 2, units(5.0));
    assert!(client_records.process_transaction(&withdraw_txn).is_ok());
    check_client(&client_records, 1, 5.0, 0.0);

    let dispute_txn = Transaction::new_dispute_txn(client_id, 1);
    assert_eq!(
        rejection(&mut client_records, &dispute_txn),
        Some(ProcessTransactionError::InsufficientFunds(
            1,
            TransactionType::Dispute,
        ))
    );
    check_client(&client_records, 1, 5.0, 0.0);
}

#[test]
fn it_should_be_able_to_resolve_a_disputed_txn() {
    let mut client_records = ClientRecords::new();
    let client_id = 1;
    let deposit_txn = Transaction::new_deposit_txn(client_id, 1, units(10.0));
    assert!(client_records.process_transaction(&deposit_txn).is_ok());
    let dispute_txn = Transaction::new_dispute_txn(client_id, 1);
    assert!(client_records.process_transaction(&dispute_txn).is_ok());
    check_client(&client_records, 1, 0.0, 10.0);

    let resolve_txn = Transaction::new_resolve_txn(client_id, 1);
    assert!(client_records.process_transaction(&resolve_txn).is_ok());
    check_client(&client_records, 1, 10.0, 0.0);
}

#[test]
fn it_should_fail_to_resolve_a_txn_that_doesnt_exist() {
    let mut client_records = ClientRecords::new();

    let resolve_txn = Transaction::new_resolve_txn(1, 1);
    assert_eq!(
        rejection(&mut client_records, &resolve_txn),
        Some(ProcessTransactionError::MissingTransaction(
            1,
            1,
            TransactionType::Resolve,
        ))
    );
}

#[test]
fn it_should_be_able_to_chargeback_a_disputed_transaction() {
    let mut client_records = ClientRecords::new();
    let client_id = 1;
    let deposit_txn = Transaction::new_deposit_txn(client_id, 1, units(10.0));
    assert!(client_records.process_transaction(&deposit_txn).is_ok());
    let dispute_txn = Transaction::new_dispute_txn(client_id, 1);
    assert!(client_records.process_transaction(&dispute_txn).is_ok());
    check_client(&client_records, 1, 0.0, 10.0);

    let chargeback_txn = Transaction::new_chargeback_txn(client_id, 1);
    assert!(client_records.process_transaction(&chargeback_txn).is_ok());
    check_client(&client_records, 1, 0.0, 0.0);
    let client = client_records.view().get(&1);
    assert!(client.is_some());
    assert_eq!(client.unwrap().is_locked, true);
}

#[test]
fn it_should_fail_to_chargeback_a_txn_that_doesnt_exist() {
    let mut client_records = ClientRecords::new();

    let chargeback_txn = Transaction::new_chargeback_txn(1, 1);
    assert_eq!(
        rejection(&mut client_records, &chargeback_txn),
        Some(ProcessTransactionError::MissingTransaction(
            1,
            1,
            TransactionType::Chargeback,
        ))
    );
}

#[test]
fn it_should_fail_to_chargeback_a_txn_where_it_has_already_been_resolved() {
    let mut client_records = ClientRecords::new();
    let client_id = 1;
    let deposit_txn = Transaction::new_deposit_txn(client_id, 1, units(10.0));

    assert!(client_records.process_transaction(&deposit_txn).is_ok());
    check_client(&client_records, 1, 10.0, 0.0);

    let dispute_txn = Transaction::new_dispute_txn(client_id, 1);
    assert!(client_records.process_transaction(&dispute_txn).is_ok());
    check_client(&client_records, 1, 0.0, 10.0);

    let resolve_txn = Transaction::new_resolve_txn(client_id, 1);
    assert!(client_records.process_transaction(&resolve_txn).is_ok());
    check_client(&client_records, 1, 10.0, 0.0);

    let chargeback_txn = Transaction::new_chargeback_txn(client_id, 1);
    assert_eq!(
        rejection(&mut client_records, &chargeback_txn),
        Some(ProcessTransactionError::InvalidTransactionState(
            1,
            TransactionType::Chargeback,
            TransactionType::Resolve,
        ))
    );
    check_client(&client_records, 1, 10.0, 0.0);
}

#[test]
fn it_should_fail_to_withdraw_if_client_account_is_locked() {
    let mut client_records = ClientRecords::new();
    let client_id = 1;
    let deposit_txn = Transaction::new_deposit_txn(client_id, 1, units(10.0));
    assert!(client_records.process_transaction(&deposit_txn).is_ok());
    let dispute_txn = Transaction::new_dispute_txn(client_id, 1);
    assert!(client_records.process_transaction(&dispute_txn).is_ok());
    let chargeback_txn = Transaction::new_chargeback_txn(client_id, 1);
    assert!(client_records.process_transaction(&chargeback_txn).is_ok());

    check_client(&client_records, 1, 0.0, 0.0);

    let deposit_txn_2 = Transaction::new_deposit_txn(client_id, 2, units(5.0));
    assert!(client_records.process_transaction(&deposit_txn_2).is_ok());

    let withdrawal_txn = Transaction::new_withdrawal_txn(1, 3, units(2.0));
    assert_eq!(
        rejection(&mut client_records, &withdrawal_txn),
        Some(ProcessTransactionError::ClientAccountFrozen(
            3,
            TransactionType::Withdrawal,
            1,
        ))
    );
}

#[test]
fn it_should_ignore_failed_withdrawals_from_duplicate_tx_id_checks() {
    let mut client_records = ClientRecords::new();
    let client_id = 1;
    let deposit_txn = Transaction::new_deposit_txn(client_id, 1, units(10.0));
    assert!(client_records.process_transaction(&deposit_txn).is_ok());

    let withdrawal_txn = Transaction::new_withdrawal_txn(2, 2, units(2.0));
    assert!(client_records.process_transaction(&withdrawal_txn).is_err());

    let deposit_txn_2 = Transaction::new_deposit_txn(client_id, 2, units(10.0));
    assert!(client_records.process_transaction(&deposit_txn_2).is_ok());
}
