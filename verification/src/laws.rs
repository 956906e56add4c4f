//! What holds of the ledger over sequences of transactions. Each law is
//! stated over [`Ledger::outcome`] and [`Ledger::apply`], which are what
//! [`crate::ClientRecords::process_transaction`] returns and does.

use vstd::prelude::*;
use crate::client::Client;
use crate::error::ProcessTransactionError;
use crate::error::TransactionFailure;
use crate::ledger::Ledger;
use crate::tx::Transaction;
use crate::tx::TransactionType;

verus! {

/// Whether `txn` is a deposit or a withdrawal: the kinds that bring a
/// transaction id of their own.
pub open spec fn moves_funds(txn: Transaction) -> bool {
    txn.txn_type == TransactionType::Deposit || txn.txn_type == TransactionType::Withdrawal
}

/// Whether `txn` is a dispute, a resolve or a chargeback: the kinds that act
/// on an earlier deposit.
pub open spec fn acts_on_deposit(txn: Transaction) -> bool {
    txn.txn_type == TransactionType::Dispute || txn.txn_type == TransactionType::Resolve
        || txn.txn_type == TransactionType::Chargeback
}

/// Whether the two ledgers show the same balances, locks, deposits and
/// withdrawal ids. They may differ in which untouched accounts are on record.
pub open spec fn same_books(a: Ledger, b: Ledger) -> bool {
    &&& forall|client_id: u16| #[trigger] a.account(client_id) == b.account(client_id)
    &&& a.deposits == b.deposits
    &&& a.withdrawals == b.withdrawals
}

impl Ledger {
    /// A transaction that fails, for whatever reason, changes no balance, no
    /// lock, no deposit and no withdrawal id.
    pub proof fn law_failure_changes_nothing(self, txn: Transaction)
        requires
            self.outcome(txn) is Err,
        ensures
            same_books(self.apply(txn), self),
    {
    }

    /// A transaction touches no account but that of its own client.
    pub proof fn law_other_accounts_untouched(self, txn: Transaction, client_id: u16)
        requires
            client_id != txn.client_id,
        ensures
            self.apply(txn).account(client_id) == self.account(client_id),
    {
    }

    /// A deposit of `d` followed by a withdrawal of `w <= d`, both under
    /// fresh ids and on an account that is not locked, are both applied and
    /// leave the available funds at what they were plus `d - w`, the held
    /// funds as they were. On an untouched account that is `d - w` available
    /// and nothing held.
    pub proof fn law_deposit_then_withdrawal(self, deposit: Transaction, withdrawal: Transaction)
        requires
            self.wf(),
            deposit.txn_type == TransactionType::Deposit,
            withdrawal.txn_type == TransactionType::Withdrawal,
            deposit.client_id == withdrawal.client_id,
            !self.is_processed(deposit.tx_id),
            !self.is_processed(withdrawal.tx_id),
            deposit.tx_id != withdrawal.tx_id,
            !self.account(deposit.client_id).is_locked,
            withdrawal.amount_or_zero() <= deposit.amount_or_zero(),
        ensures
            self.outcome(deposit) is Ok,
            self.apply(deposit).outcome(withdrawal) is Ok,
            self.apply(deposit).apply(withdrawal).account(deposit.client_id).available_amounts
                == self.account(deposit.client_id).available_amounts + deposit.amount_or_zero()
                - withdrawal.amount_or_zero(),
            self.apply(deposit).apply(withdrawal).account(deposit.client_id).held_amounts
                == self.account(deposit.client_id).held_amounts,
            self.account(deposit.client_id) == Client::zero(deposit.client_id) ==> {
                &&& self.apply(deposit).apply(withdrawal).account(
                    deposit.client_id,
                ).available_amounts == deposit.amount_or_zero() - withdrawal.amount_or_zero()
                &&& self.apply(deposit).apply(withdrawal).account(deposit.client_id).held_amounts
                    == 0
            },
    {
        self.lemma_balance_limited(deposit.client_id);
    }

    /// Once a deposit or withdrawal was applied, every later deposit or
    /// withdrawal under its id is rejected as a duplicate and changes
    /// nothing.
    pub proof fn law_duplicate_id_rejected(self, first: Transaction, second: Transaction)
        requires
            moves_funds(first),
            moves_funds(second),
            first.tx_id == second.tx_id,
            self.outcome(first) is Ok,
        ensures
            self.apply(first).outcome(second) == Err::<(), TransactionFailure>(
                TransactionFailure::Rejected(
                    ProcessTransactionError::DuplicateTransaction(second.tx_id),
                ),
            ),
            same_books(self.apply(first).apply(second), self.apply(first)),
    {
    }

    /// A dispute, resolve or chargeback that names no deposit, or names a
    /// deposit of another client that is in the state the transition starts
    /// from, is rejected as missing.
    pub proof fn law_unknown_deposit_is_missing(self, txn: Transaction)
        requires
            acts_on_deposit(txn),
            !self.deposits.contains_key(txn.tx_id) || (self.deposits[txn.tx_id].client_id
                != txn.client_id && Some(self.deposits[txn.tx_id].status)
                == txn.txn_type.preceding_state()),
        ensures
            self.outcome(txn) == Err::<(), TransactionFailure>(
                TransactionFailure::Rejected(
                    ProcessTransactionError::MissingTransaction(
                        txn.tx_id,
                        txn.client_id,
                        txn.txn_type,
                    ),
                ),
            ),
            same_books(self.apply(txn), self),
    {
    }

    /// A dispute, resolve or chargeback of a deposit that is not in the state
    /// the transition starts from is rejected, whoever sends it, and the
    /// rejection reports the state that the deposit is in.
    pub proof fn law_wrong_state_is_reported(self, txn: Transaction)
        requires
            acts_on_deposit(txn),
            self.deposits.contains_key(txn.tx_id),
            Some(self.deposits[txn.tx_id].status) != txn.txn_type.preceding_state(),
        ensures
            self.outcome(txn) == Err::<(), TransactionFailure>(
                TransactionFailure::Rejected(
                    ProcessTransactionError::InvalidTransactionState(
                        txn.tx_id,
                        txn.txn_type,
                        self.deposits[txn.tx_id].status,
                    ),
                ),
            ),
            same_books(self.apply(txn), self),
    {
    }

    /// After a dispute, resolve or chargeback was applied, the deposit has
    /// the status of that kind, and whatever may not follow it is rejected
    /// with that status: a second dispute of a disputed deposit, and any
    /// dispute, resolve or chargeback of a resolved or charged-back one.
    pub proof fn law_transition_not_repeated(self, first: Transaction, second: Transaction)
        requires
            acts_on_deposit(first),
            acts_on_deposit(second),
            first.tx_id == second.tx_id,
            self.outcome(first) is Ok,
            second.txn_type == TransactionType::Dispute || first.txn_type
                != TransactionType::Dispute,
        ensures
            self.apply(first).deposits[first.tx_id].status == first.txn_type,
            self.apply(first).outcome(second) == Err::<(), TransactionFailure>(
                TransactionFailure::Rejected(
                    ProcessTransactionError::InvalidTransactionState(
                        second.tx_id,
                        second.txn_type,
                        first.txn_type,
                    ),
                ),
            ),
    {
    }

    /// A dispute followed by its resolution: both are applied, and every
    /// account is exactly as it was before the dispute.
    pub proof fn law_dispute_then_resolve(self, dispute: Transaction, resolve: Transaction)
        requires
            self.wf(),
            dispute.txn_type == TransactionType::Dispute,
            resolve.txn_type == TransactionType::Resolve,
            dispute.tx_id == resolve.tx_id,
            dispute.client_id == resolve.client_id,
            self.outcome(dispute) is Ok,
        ensures
            self.apply(dispute).outcome(resolve) is Ok,
            forall|client_id: u16| #[trigger]
                self.apply(dispute).apply(resolve).account(client_id) == self.account(client_id),
    {
        self.lemma_balance_limited(dispute.client_id);
    }

    /// A dispute followed by its chargeback: both are applied, the held
    /// funds are what they were before the dispute, the disputed amount has
    /// left the available funds, and the account is locked.
    pub proof fn law_dispute_then_chargeback(self, dispute: Transaction, chargeback: Transaction)
        requires
            self.wf(),
            dispute.txn_type == TransactionType::Dispute,
            chargeback.txn_type == TransactionType::Chargeback,
            dispute.tx_id == chargeback.tx_id,
            dispute.client_id == chargeback.client_id,
            self.outcome(dispute) is Ok,
        ensures
            self.apply(dispute).outcome(chargeback) is Ok,
            self.apply(dispute).apply(chargeback).account(dispute.client_id) == (Client {
                available_amounts: (self.account(dispute.client_id).available_amounts
                    - self.deposits[dispute.tx_id].amount) as u128,
                is_locked: true,
                ..self.account(dispute.client_id)
            }),
            self.account(dispute.client_id).available_amounts
                >= self.deposits[dispute.tx_id].amount,
    {
        self.lemma_balance_limited(dispute.client_id);
    }

    /// No transaction unlocks an account.
    pub proof fn law_lock_is_permanent(self, txn: Transaction, client_id: u16)
        requires
            self.account(client_id).is_locked,
        ensures
            self.apply(txn).account(client_id).is_locked,
    {
    }

    /// A withdrawal from a locked account under a fresh id is refused as
    /// frozen, whatever the funds.
    pub proof fn law_locked_account_is_frozen(self, withdrawal: Transaction)
        requires
            withdrawal.txn_type == TransactionType::Withdrawal,
            self.account(withdrawal.client_id).is_locked,
            !self.is_processed(withdrawal.tx_id),
        ensures
            self.outcome(withdrawal) == Err::<(), TransactionFailure>(
                TransactionFailure::Rejected(
                    ProcessTransactionError::ClientAccountFrozen(
                        withdrawal.tx_id,
                        withdrawal.txn_type,
                        withdrawal.client_id,
                    ),
                ),
            ),
    {
    }

    /// A withdrawal that fails for want of funds changes nothing and does
    /// not take up its id: a later deposit or withdrawal under the same id
    /// is not rejected as a duplicate.
    pub proof fn law_failed_withdrawal_frees_id(self, withdrawal: Transaction, retry: Transaction)
        requires
            withdrawal.txn_type == TransactionType::Withdrawal,
            self.outcome(withdrawal) == Err::<(), TransactionFailure>(
                TransactionFailure::Rejected(
                    ProcessTransactionError::InsufficientFunds(
                        withdrawal.tx_id,
                        withdrawal.txn_type,
                    ),
                ),
            ),
            moves_funds(retry),
            retry.tx_id == withdrawal.tx_id,
        ensures
            same_books(self.apply(withdrawal), self),
            !self.apply(withdrawal).is_processed(withdrawal.tx_id),
            self.apply(withdrawal).outcome(retry) != Err::<(), TransactionFailure>(
                TransactionFailure::Rejected(
                    ProcessTransactionError::DuplicateTransaction(retry.tx_id),
                ),
            ),
            self.apply(withdrawal).outcome(retry) == self.outcome(retry),
    {
    }
}

} // verus!
