//! The engine: it owns the accounts, the deposit history and the withdrawal
//! ids, and applies one transaction at a time.

use std::collections::HashMap;
use std::collections::HashSet;
use vstd::prelude::*;
use crate::client::Client;
use crate::error::ProcessTransactionError;
use crate::error::TransactionFailure;
use crate::ledger::referenced_deposit;
use crate::ledger::Ledger;
use crate::tx::Deposit;
use crate::tx::Transaction;
use crate::tx::TransactionType;

verus! {

/// Looks up the deposit that a dispute, resolve or chargeback `txn` names and
/// checks, in this order, that it exists, that its status is the one that
/// the transition starts from, and that it belongs to the client of `txn`.
fn find_deposit(deposits: &HashMap<u32, Deposit>, txn: &Transaction) -> (found: Result<
    Deposit,
    ProcessTransactionError,
>)
    ensures
        found == referenced_deposit(deposits@, *txn),
{
    broadcast use vstd::std_specs::hash::group_hash_axioms;

    let deposit = match deposits.get(&txn.tx_id) {
        Some(deposit) => *deposit,
        None => {
            return Err(
                ProcessTransactionError::MissingTransaction(
                    txn.tx_id,
                    txn.client_id,
                    txn.txn_type,
                ),
            );
        },
    };
    if Some(deposit.status) != txn.txn_type.get_preceding_txn_state() {
        return Err(
            ProcessTransactionError::InvalidTransactionState(
                txn.tx_id,
                txn.txn_type,
                deposit.status,
            ),
        );
    }
    if deposit.client_id != txn.client_id {
        return Err(
            ProcessTransactionError::MissingTransaction(txn.tx_id, txn.client_id, txn.txn_type),
        );
    }
    Ok(deposit)
}

/// One ledger. Each instance is independent of every other.
#[derive(Debug)]
pub struct ClientRecords {
    records: HashMap<u16, Client>,
    deposits: HashMap<u32, Deposit>,
    withdrawals: HashSet<u32>,
}

impl ClientRecords {
    /// The state that this engine is in.
    pub closed spec fn ledger(&self) -> Ledger {
        Ledger {
            accounts: self.records@,
            deposits: self.deposits@,
            withdrawals: self.withdrawals@,
        }
    }

    /// Creates an engine in the empty state, which is consistent.
    pub fn new() -> (records: ClientRecords)
        ensures
            records.ledger() == Ledger::empty(),
            records.ledger().consistent(),
    {
        proof {
            Ledger::lemma_empty_consistent();
        }
        ClientRecords {
            records: HashMap::new(),
            deposits: HashMap::new(),
            withdrawals: HashSet::new(),
        }
    }

    /// The accounts on record, by client id, in no particular order.
    pub fn view(&self) -> (accounts: &HashMap<u16, Client>)
        ensures
            accounts@ == self.ledger().accounts,
    {
        &self.records
    }

    fn is_txn_processed(&self, id: u32) -> (processed: bool)
        ensures
            processed == self.ledger().is_processed(id),
    {
        broadcast use vstd::std_specs::hash::group_hash_axioms;

        self.deposits.contains_key(&id) || self.withdrawals.contains(&id)
    }

    /// Applies `txn`.
    ///
    /// The result is [`Ledger::outcome`] and the new state is
    /// [`Ledger::apply`], both taken in the state before the call. The
    /// checks come in a fixed order. A deposit or a withdrawal is checked
    /// for a duplicate id; a withdrawal then for a locked account, then for
    /// funds. A dispute, resolve or chargeback is checked for the deposit it
    /// names, then for that deposit's status, then for its owner, then for
    /// funds. On any failure no balance, deposit or withdrawal id changes.
    ///
    /// From a consistent state, such as the one [`Self::new`] gives, the
    /// state stays consistent and the failure is never fatal.
    pub fn process_transaction(&mut self, txn: &Transaction) -> (result: Result<
        (),
        TransactionFailure,
    >)
        requires
            old(self).ledger().wf(),
        ensures
            result == old(self).ledger().outcome(*txn),
            final(self).ledger() == old(self).ledger().apply(*txn),
            final(self).ledger().wf(),
            old(self).ledger().consistent() ==> final(self).ledger().consistent() && !(
            result matches Err(failure) && failure.fatal()),
    {
        broadcast use vstd::std_specs::hash::group_hash_axioms;

        let ghost before = self.ledger();
        proof {
            before.lemma_balance_limited(txn.client_id);
            before.lemma_apply_keeps_wf(*txn);
            if before.consistent() {
                before.lemma_consistent_never_fatal(*txn);
                before.lemma_apply_keeps_consistent(*txn);
            }
        }
        let is_txn_processed = self.is_txn_processed(txn.tx_id);
        let record = self.records.entry(txn.client_id).or_insert(Client::new(txn.client_id));
        let amount = match txn.amount {
            Some(amount) => amount,
            None => 0,
        };

        match txn.txn_type {
            TransactionType::Deposit => {
                if is_txn_processed {
                    return Err(
                        TransactionFailure::Rejected(
                            ProcessTransactionError::DuplicateTransaction(txn.tx_id),
                        ),
                    );
                }
                record.available_amounts += amount as u128;
                self.deposits.insert(
                    txn.tx_id,
                    Deposit {
                        client_id: txn.client_id,
                        amount,
                        status: TransactionType::Deposit,
                    },
                );
            },
            TransactionType::Withdrawal => {
                if is_txn_processed {
                    return Err(
                        TransactionFailure::Rejected(
                            ProcessTransactionError::DuplicateTransaction(txn.tx_id),
                        ),
                    );
                }
                if record.is_locked {
                    return Err(
                        TransactionFailure::Rejected(
                            ProcessTransactionError::ClientAccountFrozen(
                                txn.tx_id,
                                txn.txn_type,
                                txn.client_id,
                            ),
                        ),
                    );
                }
                if record.available_amounts < amount as u128 {
                    return Err(
                        TransactionFailure::Rejected(
                            ProcessTransactionError::InsufficientFunds(txn.tx_id, txn.txn_type),
                        ),
                    );
                }
                record.available_amounts -= amount as u128;
                self.withdrawals.insert(txn.tx_id);
            },
            TransactionType::Dispute => {
                let deposit = match find_deposit(&self.deposits, txn) {
                    Ok(deposit) => deposit,
                    Err(error) => {
                        return Err(TransactionFailure::Rejected(error));
                    },
                };
                let disputed = deposit.amount as u128;
                if record.available_amounts < disputed {
                    return Err(
                        TransactionFailure::Rejected(
                            ProcessTransactionError::InsufficientFunds(txn.tx_id, txn.txn_type),
                        ),
                    );
                }
                record.available_amounts -= disputed;
                record.held_amounts += disputed;
                self.deposits.insert(
                    txn.tx_id,
                    Deposit { status: TransactionType::Dispute, ..deposit },
                );
            },
            TransactionType::Resolve => {
                let deposit = match find_deposit(&self.deposits, txn) {
                    Ok(deposit) => deposit,
                    Err(error) => {
                        return Err(TransactionFailure::Rejected(error));
                    },
                };
                let disputed = deposit.amount as u128;
                if record.held_amounts < disputed {
                    return Err(
                        TransactionFailure::HeldFundsInsufficient(txn.tx_id, txn.txn_type),
                    );
                }
                record.available_amounts += disputed;
                record.held_amounts -= disputed;
                self.deposits.insert(
                    txn.tx_id,
                    Deposit { status: TransactionType::Resolve, ..deposit },
                );
            },
            TransactionType::Chargeback => {
                let deposit = match find_deposit(&self.deposits, txn) {
                    Ok(deposit) => deposit,
                    Err(error) => {
                        return Err(TransactionFailure::Rejected(error));
                    },
                };
                let disputed = deposit.amount as u128;
                if record.held_amounts < disputed {
                    return Err(
                        TransactionFailure::HeldFundsInsufficient(txn.tx_id, txn.txn_type),
                    );
                }
                record.held_amounts -= disputed;
                record.is_locked = true;
                self.deposits.insert(
                    txn.tx_id,
                    Deposit { status: TransactionType::Chargeback, ..deposit },
                );
            },
        }
        Ok(())
    }

    /// Applies `transactions` in order. A rejected transaction is skipped
    /// and its rejection collected; a fatal failure stops the run.
    ///
    /// Returns the rejections in the order met, with the engine in the
    /// state [`Ledger::replay`] of all transactions; or, at the first fatal
    /// failure, the index of the transaction that met it, with the engine in
    /// the state that the transactions up to and including that one left.
    ///
    /// From a consistent state, such as the one [`Self::new`] gives, the run
    /// never stops early.
    pub fn process_transactions(&mut self, transactions: &[Transaction]) -> (result: Result<
        Vec<ProcessTransactionError>,
        usize,
    >)
        requires
            old(self).ledger().wf(),
        ensures
            final(self).ledger().wf(),
            match result {
                Ok(rejections) => {
                    &&& forall|index: int|
                        0 <= index < transactions@.len() ==> !old(self).ledger().fatal_at(
                            transactions@,
                            index,
                        )
                    &&& final(self).ledger() == old(self).ledger().replay(transactions@)
                    &&& rejections@ == old(self).ledger().rejections(transactions@)
                },
                Err(stopped) => {
                    &&& stopped < transactions@.len()
                    &&& forall|index: int|
                        0 <= index < stopped ==> !old(self).ledger().fatal_at(
                            transactions@,
                            index,
                        )
                    &&& old(self).ledger().fatal_at(transactions@, stopped as int)
                    &&& final(self).ledger() == old(self).ledger().replay(
                        transactions@.take(stopped + 1),
                    )
                },
            },
            old(self).ledger().consistent() ==> result is Ok && final(self).ledger().consistent(),
    {
        let ghost before = self.ledger();
        let mut rejections: Vec<ProcessTransactionError> = Vec::new();
        let mut next: usize = 0;
        while next < transactions.len()
            invariant
                before == old(self).ledger(),
                next <= transactions@.len(),
                self.ledger().wf(),
                self.ledger() == before.replay(transactions@.take(next as int)),
                rejections@ == before.rejections(transactions@.take(next as int)),
                forall|index: int| 0 <= index < next ==> !before.fatal_at(transactions@, index),
            decreases transactions@.len() - next,
        {
            let ghost done = transactions@.take(next as int);
            let ghost with_next = transactions@.take(next + 1);
            assert(with_next.drop_last() == done);
            assert(with_next.last() == transactions@[next as int]);
            match self.process_transaction(&transactions[next]) {
                Ok(()) => {},
                Err(TransactionFailure::Rejected(error)) => {
                    rejections.push(error);
                },
                Err(TransactionFailure::HeldFundsInsufficient(_, _)) => {
                    proof {
                        if before.consistent() {
                            before.lemma_replay_keeps_consistent(transactions@);
                        }
                    }
                    return Err(next);
                },
            }
            next = next + 1;
        }
        proof {
            assert(transactions@.take(next as int) == transactions@);
            if before.consistent() {
                before.lemma_replay_keeps_consistent(transactions@);
            }
        }
        Ok(rejections)
    }
}

} // verus!
