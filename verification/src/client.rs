//! A client's account: the balances and the lock that the ledger keeps for
//! one client id.

use vstd::prelude::*;

verus! {

/// The account of one client. Balances count ten-thousandths.
#[derive(Debug, PartialEq, Eq, Clone, Copy)]
pub struct Client {
    pub client_id: u16,
    /// Funds that a withdrawal or a dispute can draw on.
    pub available_amounts: u128,
    /// Funds frozen by disputes that are still open.
    pub held_amounts: u128,
    /// Set by a chargeback, never cleared.
    pub is_locked: bool,
}

impl Client {
    /// The account that a client id has before any transaction touched it:
    /// nothing available, nothing held, not locked.
    pub open spec fn zero(client_id: u16) -> Client {
        Client { client_id, available_amounts: 0, held_amounts: 0, is_locked: false }
    }

    /// Available and held funds together. It is derived on demand and never
    /// stored.
    pub open spec fn total(self) -> nat {
        (self.available_amounts + self.held_amounts) as nat
    }

    /// This account after a deposit of `amount`.
    pub open spec fn credited(self, amount: u64) -> Client {
        Client { available_amounts: (self.available_amounts + amount) as u128, ..self }
    }

    /// This account after a withdrawal of `amount`.
    pub open spec fn debited(self, amount: u64) -> Client {
        Client { available_amounts: (self.available_amounts - amount) as u128, ..self }
    }

    /// This account after a dispute froze `amount` of its available funds.
    pub open spec fn holding(self, amount: u64) -> Client {
        Client {
            available_amounts: (self.available_amounts - amount) as u128,
            held_amounts: (self.held_amounts + amount) as u128,
            ..self
        }
    }

    /// This account after a resolution gave `amount` of its held funds back.
    pub open spec fn releasing(self, amount: u64) -> Client {
        Client {
            available_amounts: (self.available_amounts + amount) as u128,
            held_amounts: (self.held_amounts - amount) as u128,
            ..self
        }
    }

    /// This account after a chargeback took `amount` of its held funds away
    /// and locked it.
    pub open spec fn charged_back(self, amount: u64) -> Client {
        Client { held_amounts: (self.held_amounts - amount) as u128, is_locked: true, ..self }
    }

    /// Creates the account [`Self::zero`] of `client_id`.
    pub fn new(client_id: u16) -> (client: Client)
        ensures
            client == Client::zero(client_id),
    {
        Client { client_id, available_amounts: 0, held_amounts: 0, is_locked: false }
    }

    /// Computes [`Self::total`]. The sum must fit the balance type, which
    /// holds of every account that a well-formed ledger keeps.
    pub fn total_amounts(&self) -> (total: u128)
        requires
            self.total() <= u128::MAX,
        ensures
            total == self.total(),
    {
        self.held_amounts + self.available_amounts
    }
}

} // verus!
