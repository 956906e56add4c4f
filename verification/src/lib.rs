//! An in-memory ledger engine. It replays deposits, withdrawals, disputes,
//! resolutions and chargebacks, one at a time and in arrival order, against
//! per-client balances, and keeps the dispute lifecycle of every deposit.
//!
//! - [`tx`]: the transaction model and the table of legal transitions.
//! - [`client`]: a client's account.
//! - [`error`]: why a transaction was not applied.
//! - [`ledger`]: the engine as a mathematical state machine.
//! - [`records`]: the engine itself, proved to follow the state machine.
//! - [`invariants`]: what holds of every state the engine reaches.
//! - [`laws`]: what holds over sequences of transactions.
//! - [`sums`]: sums over the transaction ids, on which the invariants rest.
//! - [`amount`]: amounts as fixed-point numbers, read and written as text.

pub mod amount;
pub mod client;
pub mod error;
pub mod invariants;
pub mod laws;
pub mod ledger;
pub mod records;
pub mod sums;
pub mod tx;

pub use amount::format_amount;
pub use amount::parse_amount;
pub use client::Client;
pub use error::ProcessTransactionError;
pub use ledger::Ledger;
pub use records::ClientRecords;
pub use error::TransactionFailure;
pub use tx::Deposit;
pub use tx::Transaction;
pub use tx::TransactionType;
