//! The ledger's invariants hold at the start and outlive every transaction.

use vstd::prelude::*;
use crate::ledger::balance_limit;
use crate::ledger::deposited_to;
use crate::ledger::disputed_of;
use crate::ledger::Ledger;
use crate::sums::lemma_sum_below_bounded;
use crate::sums::lemma_sum_below_covers;
use crate::sums::lemma_sum_below_differs_at;
use crate::sums::sum_below;
use crate::sums::tx_space;
use crate::tx::Transaction;
use crate::tx::TransactionType;

verus! {

/// The sums of the empty ledger are zero.
proof fn lemma_no_deposits_sum(client_id: u16, n: nat)
    ensures
        sum_below(deposited_to(Map::empty(), client_id), n) == 0,
        sum_below(disputed_of(Map::empty(), client_id), n) == 0,
    decreases n,
{
    if n > 0 {
        lemma_no_deposits_sum(client_id, (n - 1) as nat);
    }
}

/// How the two sums of `client_id` move when `txn` is applied.
proof fn lemma_apply_moves_sums(ledger: Ledger, txn: Transaction, client_id: u16)
    ensures
        ledger.apply(txn).total_deposited(client_id) == ledger.total_deposited(client_id) + (
        if ledger.outcome(txn) is Ok && txn.txn_type == TransactionType::Deposit
            && txn.client_id == client_id {
            txn.amount_or_zero() as int
        } else {
            0
        }),
        ledger.apply(txn).total_disputed(client_id) + disputed_of(ledger.deposits, client_id)(
            txn.tx_id,
        ) == ledger.total_disputed(client_id) + disputed_of(
            ledger.apply(txn).deposits,
            client_id,
        )(txn.tx_id),
{
    let after = ledger.apply(txn);
    lemma_sum_below_differs_at(
        deposited_to(ledger.deposits, client_id),
        deposited_to(after.deposits, client_id),
        txn.tx_id,
        tx_space(),
    );
    lemma_sum_below_differs_at(
        disputed_of(ledger.deposits, client_id),
        disputed_of(after.deposits, client_id),
        txn.tx_id,
        tx_space(),
    );
}

impl Ledger {
    /// In a well-formed ledger no account exceeds [`balance_limit`], so
    /// adding one more amount to a balance cannot overflow it.
    pub proof fn lemma_balance_limited(self, client_id: u16)
        requires
            self.wf(),
        ensures
            self.account(client_id).total() <= balance_limit(),
            balance_limit() + u64::MAX <= u128::MAX,
    {
        let weight = deposited_to(self.deposits, client_id);
        assert forall|tx_id: u32| #[trigger] weight(tx_id) <= u64::MAX by {}
        lemma_sum_below_bounded(weight, tx_space(), u64::MAX as nat);
    }

    /// The empty ledger is consistent.
    pub proof fn lemma_empty_consistent()
        ensures
            Ledger::empty().consistent(),
    {
        let ledger = Ledger::empty();
        assert forall|client_id: u16|
            {
                &&& (#[trigger] ledger.account(client_id)).client_id == client_id
                &&& ledger.account(client_id).total() <= ledger.total_deposited(client_id)
                &&& ledger.account(client_id).held_amounts == ledger.total_disputed(client_id)
            } by {
            lemma_no_deposits_sum(client_id, tx_space());
        }
    }

    /// Every transaction, applied or not, leaves a well-formed ledger
    /// well-formed.
    pub proof fn lemma_apply_keeps_wf(self, txn: Transaction)
        requires
            self.wf(),
        ensures
            self.apply(txn).wf(),
    {
        let after = self.apply(txn);
        assert forall|client_id: u16|
            {
                &&& (#[trigger] after.account(client_id)).client_id == client_id
                &&& after.account(client_id).total() <= after.total_deposited(client_id)
            } by {
            assert(self.account(client_id).client_id == client_id);
            self.lemma_balance_limited(client_id);
            lemma_apply_moves_sums(self, txn, client_id);
        }
    }

    /// In a consistent ledger the held funds cover every deposit under
    /// dispute, so no resolve or chargeback fails fatally.
    pub proof fn lemma_consistent_never_fatal(self, txn: Transaction)
        requires
            self.consistent(),
        ensures
            !(self.outcome(txn) matches Err(failure) && failure.fatal()),
    {
        assert(self.account(txn.client_id).held_amounts == self.total_disputed(txn.client_id));
        lemma_sum_below_covers(disputed_of(self.deposits, txn.client_id), txn.tx_id, tx_space());
    }

    /// Every transaction, applied or not, leaves a consistent ledger
    /// consistent.
    pub proof fn lemma_apply_keeps_consistent(self, txn: Transaction)
        requires
            self.consistent(),
        ensures
            self.apply(txn).consistent(),
    {
        let after = self.apply(txn);
        self.lemma_apply_keeps_wf(txn);
        assert forall|client_id: u16|
            (#[trigger] after.account(client_id)).held_amounts == after.total_disputed(
                client_id,
            ) by {
            assert(self.account(client_id).held_amounts == self.total_disputed(client_id));
            assert(self.account(client_id).client_id == client_id);
            self.lemma_balance_limited(client_id);
            lemma_apply_moves_sums(self, txn, client_id);
        }
    }

    /// Replaying any transactions from a consistent state ends in a
    /// consistent state, and none of them fails fatally on the way.
    pub proof fn lemma_replay_keeps_consistent(self, txns: Seq<Transaction>)
        requires
            self.consistent(),
        ensures
            self.replay(txns).consistent(),
            forall|index: int| 0 <= index < txns.len() ==> !self.fatal_at(txns, index),
        decreases txns.len(),
    {
        if txns.len() > 0 {
            let earlier = txns.drop_last();
            self.lemma_replay_keeps_consistent(earlier);
            self.replay(earlier).lemma_apply_keeps_consistent(txns.last());
            assert forall|index: int| 0 <= index < txns.len() implies !self.fatal_at(
                txns,
                index,
            ) by {
                if index < txns.len() - 1 {
                    assert(txns.take(index) == earlier.take(index));
                    assert(!self.fatal_at(earlier, index));
                } else {
                    assert(txns.take(index) == earlier);
                    self.replay(earlier).lemma_consistent_never_fatal(txns.last());
                }
            }
        }
    }
}

} // verus!
