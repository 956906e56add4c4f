//! The transaction model: the kinds of transaction, the input record, the
//! stored deposit record and the legal transitions of a deposit's dispute
//! lifecycle.
//!
//! Amounts are fixed-point numbers with four decimal places, held as a count
//! of ten-thousandths (see [`crate::amount`]).

use vstd::prelude::*;

verus! {

/// The kind of a transaction. A deposit record reuses it as its lifecycle
/// status: `Deposit` (deposited), `Dispute` (disputed), `Resolve` (resolved),
/// `Chargeback` (charged back).
#[derive(Debug, PartialEq, Eq, Clone, Copy, Structural)]
pub enum TransactionType {
    Deposit,
    Withdrawal,
    Dispute,
    Resolve,
    Chargeback,
}

impl TransactionType {
    /// The status that the referenced deposit must have for a transaction of
    /// this kind to be legal; `None` for the kinds that refer to no deposit.
    /// The ledger takes every transition decision from this table.
    pub open spec fn preceding_state(self) -> Option<TransactionType> {
        match self {
            TransactionType::Deposit => None,
            TransactionType::Withdrawal => None,
            TransactionType::Dispute => Some(TransactionType::Deposit),
            TransactionType::Resolve => Some(TransactionType::Dispute),
            TransactionType::Chargeback => Some(TransactionType::Dispute),
        }
    }

    /// Computes [`Self::preceding_state`].
    pub fn get_preceding_txn_state(&self) -> (state: Option<TransactionType>)
        ensures
            state == self.preceding_state(),
    {
        match self {
            TransactionType::Deposit => None,
            TransactionType::Withdrawal => None,
            TransactionType::Dispute => Some(TransactionType::Deposit),
            TransactionType::Resolve | TransactionType::Chargeback => Some(
                TransactionType::Dispute,
            ),
        }
    }

    /// The lowercase name under which this kind appears in a record.
    pub open spec fn label(self) -> Seq<char> {
        match self {
            TransactionType::Deposit => "deposit"@,
            TransactionType::Withdrawal => "withdrawal"@,
            TransactionType::Dispute => "dispute"@,
            TransactionType::Resolve => "resolve"@,
            TransactionType::Chargeback => "chargeback"@,
        }
    }

    /// Returns [`Self::label`] as a string.
    pub fn name(&self) -> (s: &'static str)
        ensures
            s@ == self.label(),
    {
        match self {
            TransactionType::Deposit => "deposit",
            TransactionType::Withdrawal => "withdrawal",
            TransactionType::Dispute => "dispute",
            TransactionType::Resolve => "resolve",
            TransactionType::Chargeback => "chargeback",
        }
    }
}

/// One input record. `amount` is present for deposits and withdrawals and
/// absent for the three kinds that act on an earlier deposit.
#[derive(Debug)]
pub struct Transaction {
    pub txn_type: TransactionType,
    pub client_id: u16,
    pub tx_id: u32,
    pub amount: Option<u64>,
}

impl Transaction {
    /// The amount that a deposit or withdrawal moves: the record's amount,
    /// or zero where it carries none.
    pub open spec fn amount_or_zero(self) -> u64 {
        match self.amount {
            Some(amount) => amount,
            None => 0,
        }
    }

    /// A deposit of `amount` to `client_id` under the new id `tx_id`.
    pub fn new_deposit_txn(client_id: u16, tx_id: u32, amount: u64) -> (txn: Transaction)
        ensures
            txn == (Transaction {
                txn_type: TransactionType::Deposit,
                client_id,
                tx_id,
                amount: Some(amount),
            }),
    {
        Transaction { txn_type: TransactionType::Deposit, client_id, tx_id, amount: Some(amount) }
    }

    /// A withdrawal of `amount` from `client_id` under the new id `tx_id`.
    pub fn new_withdrawal_txn(client_id: u16, tx_id: u32, amount: u64) -> (txn: Transaction)
        ensures
            txn == (Transaction {
                txn_type: TransactionType::Withdrawal,
                client_id,
                tx_id,
                amount: Some(amount),
            }),
    {
        Transaction {
            txn_type: TransactionType::Withdrawal,
            client_id,
            tx_id,
            amount: Some(amount),
        }
    }

    /// A dispute by `client_id` of the deposit `tx_id`.
    pub fn new_dispute_txn(client_id: u16, tx_id: u32) -> (txn: Transaction)
        ensures
            txn == (Transaction {
                txn_type: TransactionType::Dispute,
                client_id,
                tx_id,
                amount: None,
            }),
    {
        Transaction { txn_type: TransactionType::Dispute, client_id, tx_id, amount: None }
    }

    /// The resolution of `client_id`'s dispute of the deposit `tx_id`.
    pub fn new_resolve_txn(client_id: u16, tx_id: u32) -> (txn: Transaction)
        ensures
            txn == (Transaction {
                txn_type: TransactionType::Resolve,
                client_id,
                tx_id,
                amount: None,
            }),
    {
        Transaction { txn_type: TransactionType::Resolve, client_id, tx_id, amount: None }
    }

    /// The chargeback of `client_id`'s disputed deposit `tx_id`.
    pub fn new_chargeback_txn(client_id: u16, tx_id: u32) -> (txn: Transaction)
        ensures
            txn == (Transaction {
                txn_type: TransactionType::Chargeback,
                client_id,
                tx_id,
                amount: None,
            }),
    {
        Transaction { txn_type: TransactionType::Chargeback, client_id, tx_id, amount: None }
    }
}

/// What the ledger keeps of a deposit: its owner, its amount and where it
/// stands in the dispute lifecycle.
#[derive(Debug, Clone, Copy)]
pub struct Deposit {
    pub client_id: u16,
    pub amount: u64,
    pub status: TransactionType,
}

} // verus!
