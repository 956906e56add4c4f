//! Sums of a weight over the transaction ids, and the facts about them that
//! the ledger's invariants rest on.

use vstd::prelude::*;

verus! {

/// The number of transaction ids.
pub open spec fn tx_space() -> nat {
    0x1_0000_0000
}

/// The sum of `weight` over the transaction ids below `n`.
pub open spec fn sum_below(weight: spec_fn(u32) -> nat, n: nat) -> nat
    decreases n,
{
    if n == 0 {
        0
    } else {
        sum_below(weight, (n - 1) as nat) + weight((n - 1) as u32)
    }
}

/// The sum of `weight` over all transaction ids.
pub open spec fn sum_all(weight: spec_fn(u32) -> nat) -> nat {
    sum_below(weight, tx_space())
}

/// A sum of `n` weights, none above `bound`, is at most `n * bound`.
pub proof fn lemma_sum_below_bounded(weight: spec_fn(u32) -> nat, n: nat, bound: nat)
    requires
        forall|tx: u32| #[trigger] weight(tx) <= bound,
    ensures
        sum_below(weight, n) <= n * bound,
    decreases n,
{
    if n > 0 {
        lemma_sum_below_bounded(weight, (n - 1) as nat, bound);
        assert((n - 1) * bound + bound == n * bound) by (nonlinear_arith);
    }
}

/// Two weights that differ at `tx` alone have sums that differ by what they
/// differ by at `tx`, once the sum reaches `tx`.
pub proof fn lemma_sum_below_differs_at(
    before: spec_fn(u32) -> nat,
    after: spec_fn(u32) -> nat,
    tx: u32,
    n: nat,
)
    requires
        n <= tx_space(),
        forall|other: u32| other != tx ==> #[trigger] before(other) == after(other),
    ensures
        tx < n ==> sum_below(after, n) + before(tx) == sum_below(before, n) + after(tx),
        tx >= n ==> sum_below(after, n) == sum_below(before, n),
    decreases n,
{
    if n > 0 {
        lemma_sum_below_differs_at(before, after, tx, (n - 1) as nat);
    }
}

/// Every term is at most the sum that holds it.
pub proof fn lemma_sum_below_covers(weight: spec_fn(u32) -> nat, tx: u32, n: nat)
    requires
        tx < n <= tx_space(),
    ensures
        weight(tx) <= sum_below(weight, n),
    decreases n,
{
    if tx < n - 1 {
        lemma_sum_below_covers(weight, tx, (n - 1) as nat);
    }
}

} // verus!
