//! Why a transaction was not applied.

use vstd::prelude::*;
use crate::tx::TransactionType;

verus! {

/// A business-rule rejection of one transaction. The ledger is as valid after
/// it as before, and the caller goes on with the next transaction.
#[derive(Debug, PartialEq, Eq, Clone, Copy)]
pub enum ProcessTransactionError {
    /// A deposit or withdrawal reused the id of an earlier deposit or
    /// withdrawal: `(tx_id)`.
    DuplicateTransaction(u32),
    /// A withdrawal or a dispute asked for more than is available:
    /// `(tx_id, txn_type)`.
    InsufficientFunds(u32, TransactionType),
    /// The deposit referred to does not exist, or belongs to another client:
    /// `(tx_id, client_id, txn_type)`.
    MissingTransaction(u32, u16, TransactionType),
    /// The deposit referred to is not in the state that the transition
    /// starts from: `(tx_id, txn_type, actual status)`.
    InvalidTransactionState(u32, TransactionType, TransactionType),
    /// A withdrawal from a locked account: `(tx_id, txn_type, client_id)`.
    ClientAccountFrozen(u32, TransactionType, u16),
}

/// The two categories of failure, told apart by variant.
#[derive(Debug, PartialEq, Eq, Clone, Copy)]
pub enum TransactionFailure {
    /// The transaction broke a business rule; skip it and continue.
    Rejected(ProcessTransactionError),
    /// A resolve or chargeback `(tx_id, txn_type)` found less held than the
    /// disputed deposit put there. The ledger's bookkeeping is corrupt and
    /// the run must stop.
    HeldFundsInsufficient(u32, TransactionType),
}

impl TransactionFailure {
    /// Whether the run must stop.
    pub open spec fn fatal(self) -> bool {
        self is HeldFundsInsufficient
    }

    /// Computes [`Self::fatal`].
    pub fn is_fatal(&self) -> (fatal: bool)
        ensures
            fatal == self.fatal(),
    {
        match self {
            TransactionFailure::Rejected(_) => false,
            TransactionFailure::HeldFundsInsufficient(_, _) => true,
        }
    }

    /// The rejection behind a recoverable failure; `None` for a fatal one.
    pub fn rejection(&self) -> (rejection: Option<ProcessTransactionError>)
        ensures
            rejection == (match *self {
                TransactionFailure::Rejected(error) => Some(error),
                TransactionFailure::HeldFundsInsufficient(_, _) => None,
            }),
    {
        match self {
            TransactionFailure::Rejected(error) => Some(*error),
            TransactionFailure::HeldFundsInsufficient(_, _) => None,
        }
    }
}

} // verus!
