//! The ledger as a mathematical state machine: what the engine holds, which
//! outcome a transaction has in a given state, and the state that follows.
//! [`crate::ClientRecords`] is proved to compute exactly this.

use vstd::prelude::*;
use crate::client::Client;
use crate::error::ProcessTransactionError;
use crate::error::TransactionFailure;
use crate::sums::sum_all;
use crate::tx::Deposit;
use crate::tx::Transaction;
use crate::tx::TransactionType;

verus! {

/// What deposit `tx_id` put into the account of `client_id`: its amount if it
/// is that client's deposit, else nothing.
pub open spec fn deposited_to(deposits: Map<u32, Deposit>, client_id: u16) -> spec_fn(u32) -> nat {
    |tx_id: u32|
        if deposits.contains_key(tx_id) && deposits[tx_id].client_id == client_id {
            deposits[tx_id].amount as nat
        } else {
            0
        }
}

/// What deposit `tx_id` holds frozen in the account of `client_id`: its amount
/// if it is that client's deposit and under dispute, else nothing.
pub open spec fn disputed_of(deposits: Map<u32, Deposit>, client_id: u16) -> spec_fn(u32) -> nat {
    |tx_id: u32|
        if deposits.contains_key(tx_id) && deposits[tx_id].client_id == client_id
            && deposits[tx_id].status == TransactionType::Dispute {
            deposits[tx_id].amount as nat
        } else {
            0
        }
}

/// The deposit that a dispute, resolve or chargeback `txn` acts on, or the
/// reason why it acts on none. A deposit in the wrong state is reported
/// before a deposit of another client.
pub open spec fn referenced_deposit(deposits: Map<u32, Deposit>, txn: Transaction) -> Result<
    Deposit,
    ProcessTransactionError,
> {
    if !deposits.contains_key(txn.tx_id) {
        Err(ProcessTransactionError::MissingTransaction(txn.tx_id, txn.client_id, txn.txn_type))
    } else if Some(deposits[txn.tx_id].status) != txn.txn_type.preceding_state() {
        Err(
            ProcessTransactionError::InvalidTransactionState(
                txn.tx_id,
                txn.txn_type,
                deposits[txn.tx_id].status,
            ),
        )
    } else if deposits[txn.tx_id].client_id != txn.client_id {
        Err(ProcessTransactionError::MissingTransaction(txn.tx_id, txn.client_id, txn.txn_type))
    } else {
        Ok(deposits[txn.tx_id])
    }
}

/// No account can hold more than this: every deposit at its largest.
pub open spec fn balance_limit() -> nat {
    0x1_0000_0000 * 0xFFFF_FFFF_FFFF_FFFF
}

/// The state of the engine.
pub struct Ledger {
    /// The accounts on record, by client id.
    pub accounts: Map<u16, Client>,
    /// Every deposit that was applied, by transaction id.
    pub deposits: Map<u32, Deposit>,
    /// The ids of the withdrawals that were applied.
    pub withdrawals: Set<u32>,
}

impl Ledger {
    /// The ledger before any transaction.
    pub open spec fn empty() -> Ledger {
        Ledger { accounts: Map::empty(), deposits: Map::empty(), withdrawals: Set::empty() }
    }

    /// Whether `tx_id` is the id of an applied deposit or withdrawal.
    pub open spec fn is_processed(self, tx_id: u32) -> bool {
        self.deposits.contains_key(tx_id) || self.withdrawals.contains(tx_id)
    }

    /// The account of `client_id`: the one on record, or the untouched
    /// account of a client that no transaction has named yet.
    pub open spec fn account(self, client_id: u16) -> Client {
        if self.accounts.contains_key(client_id) {
            self.accounts[client_id]
        } else {
            Client::zero(client_id)
        }
    }

    /// The sum of all deposits of `client_id`.
    pub open spec fn total_deposited(self, client_id: u16) -> nat {
        sum_all(deposited_to(self.deposits, client_id))
    }

    /// The sum of the deposits of `client_id` that are under dispute.
    pub open spec fn total_disputed(self, client_id: u16) -> nat {
        sum_all(disputed_of(self.deposits, client_id))
    }

    /// What the engine needs of a state to work on it: every account is
    /// filed under its own id and holds no more than its client deposited.
    pub open spec fn wf(self) -> bool {
        forall|client_id: u16|
            {
                &&& (#[trigger] self.account(client_id)).client_id == client_id
                &&& self.account(client_id).total() <= self.total_deposited(client_id)
            }
    }

    /// The bookkeeping is intact: beyond [`Self::wf`], every account holds
    /// exactly the deposits of its client that are under dispute, no id is
    /// both a deposit and a withdrawal, and every deposit has a status of the
    /// dispute lifecycle.
    pub open spec fn consistent(self) -> bool {
        &&& self.wf()
        &&& forall|client_id: u16|
            (#[trigger] self.account(client_id)).held_amounts == self.total_disputed(client_id)
        &&& forall|tx_id: u32|
            #[trigger] self.deposits.contains_key(tx_id) ==> {
                &&& !self.withdrawals.contains(tx_id)
                &&& self.deposits[tx_id].status != TransactionType::Withdrawal
            }
    }

    /// Whether `txn` is applied in this state, and if not, why.
    pub open spec fn outcome(self, txn: Transaction) -> Result<(), TransactionFailure> {
        let account = self.account(txn.client_id);
        match txn.txn_type {
            TransactionType::Deposit => {
                if self.is_processed(txn.tx_id) {
                    Err(
                        TransactionFailure::Rejected(
                            ProcessTransactionError::DuplicateTransaction(txn.tx_id),
                        ),
                    )
                } else {
                    Ok(())
                }
            },
            TransactionType::Withdrawal => {
                if self.is_processed(txn.tx_id) {
                    Err(
                        TransactionFailure::Rejected(
                            ProcessTransactionError::DuplicateTransaction(txn.tx_id),
                        ),
                    )
                } else if account.is_locked {
                    Err(
                        TransactionFailure::Rejected(
                            ProcessTransactionError::ClientAccountFrozen(
                                txn.tx_id,
                                txn.txn_type,
                                txn.client_id,
                            ),
                        ),
                    )
                } else if account.available_amounts < txn.amount_or_zero() {
                    Err(
                        TransactionFailure::Rejected(
                            ProcessTransactionError::InsufficientFunds(txn.tx_id, txn.txn_type),
                        ),
                    )
                } else {
                    Ok(())
                }
            },
            TransactionType::Dispute => match referenced_deposit(self.deposits, txn) {
                Err(error) => Err(TransactionFailure::Rejected(error)),
                Ok(deposit) => {
                    if account.available_amounts < deposit.amount {
                        Err(
                            TransactionFailure::Rejected(
                                ProcessTransactionError::InsufficientFunds(
                                    txn.tx_id,
                                    txn.txn_type,
                                ),
                            ),
                        )
                    } else {
                        Ok(())
                    }
                },
            },
            TransactionType::Resolve | TransactionType::Chargeback => match referenced_deposit(
                self.deposits,
                txn,
            ) {
                Err(error) => Err(TransactionFailure::Rejected(error)),
                Ok(deposit) => {
                    if account.held_amounts < deposit.amount {
                        Err(TransactionFailure::HeldFundsInsufficient(txn.tx_id, txn.txn_type))
                    } else {
                        Ok(())
                    }
                },
            },
        }
    }

    /// This ledger with the account of `client_id` on record.
    pub open spec fn with_account(self, client_id: u16) -> Ledger {
        Ledger { accounts: self.accounts.insert(client_id, self.account(client_id)), ..self }
    }

    /// The state after `txn`. A transaction that fails changes no balance, no
    /// deposit and no withdrawal id; like any other it puts the account of
    /// its client on record.
    pub open spec fn apply(self, txn: Transaction) -> Ledger {
        let account = self.account(txn.client_id);
        if self.outcome(txn) is Err {
            self.with_account(txn.client_id)
        } else {
            match txn.txn_type {
                TransactionType::Deposit => Ledger {
                    accounts: self.accounts.insert(
                        txn.client_id,
                        account.credited(txn.amount_or_zero()),
                    ),
                    deposits: self.deposits.insert(
                        txn.tx_id,
                        Deposit {
                            client_id: txn.client_id,
                            amount: txn.amount_or_zero(),
                            status: TransactionType::Deposit,
                        },
                    ),
                    withdrawals: self.withdrawals,
                },
                TransactionType::Withdrawal => Ledger {
                    accounts: self.accounts.insert(
                        txn.client_id,
                        account.debited(txn.amount_or_zero()),
                    ),
                    deposits: self.deposits,
                    withdrawals: self.withdrawals.insert(txn.tx_id),
                },
                TransactionType::Dispute => Ledger {
                    accounts: self.accounts.insert(
                        txn.client_id,
                        account.holding(self.deposits[txn.tx_id].amount),
                    ),
                    deposits: self.deposits.insert(
                        txn.tx_id,
                        Deposit { status: TransactionType::Dispute, ..self.deposits[txn.tx_id] },
                    ),
                    withdrawals: self.withdrawals,
                },
                TransactionType::Resolve => Ledger {
                    accounts: self.accounts.insert(
                        txn.client_id,
                        account.releasing(self.deposits[txn.tx_id].amount),
                    ),
                    deposits: self.deposits.insert(
                        txn.tx_id,
                        Deposit { status: TransactionType::Resolve, ..self.deposits[txn.tx_id] },
                    ),
                    withdrawals: self.withdrawals,
                },
                TransactionType::Chargeback => Ledger {
                    accounts: self.accounts.insert(
                        txn.client_id,
                        account.charged_back(self.deposits[txn.tx_id].amount),
                    ),
                    deposits: self.deposits.insert(
                        txn.tx_id,
                        Deposit {
                            status: TransactionType::Chargeback,
                            ..self.deposits[txn.tx_id]
                        },
                    ),
                    withdrawals: self.withdrawals,
                },
            }
        }
    }

    /// The state after the transactions of `txns`, each applied in turn to
    /// the state that the one before it left.
    pub open spec fn replay(self, txns: Seq<Transaction>) -> Ledger
        decreases txns.len(),
    {
        if txns.len() == 0 {
            self
        } else {
            self.replay(txns.drop_last()).apply(txns.last())
        }
    }

    /// The rejections met while replaying `txns`, in the order met.
    pub open spec fn rejections(self, txns: Seq<Transaction>) -> Seq<ProcessTransactionError>
        decreases txns.len(),
    {
        if txns.len() == 0 {
            Seq::empty()
        } else {
            match self.replay(txns.drop_last()).outcome(txns.last()) {
                Err(TransactionFailure::Rejected(error)) => self.rejections(
                    txns.drop_last(),
                ).push(error),
                _ => self.rejections(txns.drop_last()),
            }
        }
    }

    /// Whether the transaction at `index` fails fatally when `txns` is
    /// replayed.
    pub open spec fn fatal_at(self, txns: Seq<Transaction>, index: int) -> bool {
        self.replay(txns.take(index)).outcome(txns[index]) matches Err(failure)
            && failure.fatal()
    }
}

} // verus!
