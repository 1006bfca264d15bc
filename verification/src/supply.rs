//! Total supply of a ledger: the sum of the balances of all its accounts.
use crate::token::balance_in;
use vstd::prelude::*;

verus! {

/// The sum of the balances that `m` gives the accounts in `keys`.
pub open spec fn sum_over(m: Map<Seq<char>, i128>, keys: Set<Seq<char>>) -> int
    decreases keys.len(),
    when keys.finite()
{
    if keys.len() == 0 {
        0
    } else {
        let k = keys.choose();
        balance_in(m, k) + sum_over(m, keys.remove(k))
    }
}

/// The total supply of a ledger: the sum of the balances of the accounts that
/// have an entry (the others hold zero).
pub open spec fn total_supply(m: Map<Seq<char>, i128>) -> int {
    sum_over(m, m.dom())
}

/// Any account of the set can be taken out of the sum first.
pub proof fn lemma_sum_remove(m: Map<Seq<char>, i128>, keys: Set<Seq<char>>, k: Seq<char>)
    requires
        keys.finite(),
        keys.contains(k),
    ensures
        sum_over(m, keys) == balance_in(m, k) + sum_over(m, keys.remove(k)),
    decreases keys.len(),
{
    let c = keys.choose();
    if c != k {
        lemma_sum_remove(m, keys.remove(c), k);
        lemma_sum_remove(m, keys.remove(k), c);
        assert(keys.remove(c).remove(k) =~= keys.remove(k).remove(c));
    }
}

/// Two ledgers that agree on the balances of a set of accounts have the same
/// sum over it.
pub proof fn lemma_sum_frame(
    m1: Map<Seq<char>, i128>,
    m2: Map<Seq<char>, i128>,
    keys: Set<Seq<char>>,
)
    requires
        keys.finite(),
        forall|k: Seq<char>| keys.contains(k) ==> balance_in(m1, k) == balance_in(m2, k),
    ensures
        sum_over(m1, keys) == sum_over(m2, keys),
    decreases keys.len(),
{
    if keys.len() != 0 {
        let c = keys.choose();
        lemma_sum_frame(m1, m2, keys.remove(c));
    }
}

/// Accounts without an entry add nothing: the sum over any finite set that
/// holds every entry is the total supply.
pub proof fn lemma_sum_superset(m: Map<Seq<char>, i128>, keys: Set<Seq<char>>)
    requires
        keys.finite(),
        m.dom().finite(),
        m.dom().subset_of(keys),
    ensures
        sum_over(m, keys) == total_supply(m),
    decreases keys.len(),
{
    if !(keys =~= m.dom()) {
        let k = choose|k: Seq<char>| keys.contains(k) && !m.dom().contains(k);
        lemma_sum_remove(m, keys, k);
        lemma_sum_superset(m, keys.remove(k));
    }
}

/// Writing the entry of one account changes the sum over a set that holds it by
/// the change of that balance.
pub proof fn lemma_sum_update(
    m: Map<Seq<char>, i128>,
    keys: Set<Seq<char>>,
    k: Seq<char>,
    v: i128,
)
    requires
        keys.finite(),
        keys.contains(k),
    ensures
        sum_over(m.insert(k, v), keys) == sum_over(m, keys) - balance_in(m, k) + v,
{
    lemma_sum_remove(m, keys, k);
    lemma_sum_remove(m.insert(k, v), keys, k);
    lemma_sum_frame(m.insert(k, v), m, keys.remove(k));
}

} // verus!
