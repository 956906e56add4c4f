use ledger_engine::TransactionType;

#[test]
fn test_preceding_txn_state() {
    assert_eq!(TransactionType::Deposit.get_preceding_txn_state(), None);
    assert_eq!(TransactionType::Withdrawal.get_preceding_txn_state(), None);
    assert_eq!(
        TransactionType::Dispute.get_preceding_txn_state(),
        Some(TransactionType::Deposit)
    );
    assert_eq!(
        TransactionType::Resolve.get_preceding_txn_state(),
        Some(TransactionType::Dispute)
    );
    assert_eq!(
        TransactionType::Chargeback.get_preceding_txn_state(),
        Some(TransactionType::Dispute)
    );
}
