//! What every ledger operation keeps, and what a sequence of them amounts to.
use crate::supply::{lemma_sum_superset, lemma_sum_update, sum_over, total_supply};
use crate::token::{
    allowance_at, approved, balance_in, can_mint, can_transfer, can_transfer_from, minted,
    transferred, transferred_from, LedgerState,
};
use vstd::prelude::*;

verus! {

/// Minting `amount` to an account raises the total supply by exactly `amount`.
pub proof fn law_mint_adds_to_supply(m: Map<Seq<char>, i128>, to: Seq<char>, amount: i128)
    requires
        m.dom().finite(),
        can_mint(m, to, amount),
    ensures
        total_supply(minted(m, to, amount)) == total_supply(m) + amount,
{
    let keys = m.dom().insert(to);
    let after = minted(m, to, amount);
    assert(after.dom() =~= keys);
    lemma_sum_update(m, keys, to, (balance_in(m, to) + amount) as i128);
    lemma_sum_superset(m, keys);
}

/// A transfer between two different accounts leaves the total supply unchanged.
pub proof fn law_transfer_preserves_supply(
    m: Map<Seq<char>, i128>,
    from: Seq<char>,
    to: Seq<char>,
    amount: i128,
)
    requires
        m.dom().finite(),
        from != to,
        can_transfer(m, from, to, amount),
    ensures
        total_supply(transferred(m, from, to, amount)) == total_supply(m),
{
    let keys = m.dom().insert(from).insert(to);
    let debited = m.insert(from, (balance_in(m, from) - amount) as i128);
    let after = transferred(m, from, to, amount);
    assert(after.dom() =~= keys);
    lemma_sum_update(m, keys, from, (balance_in(m, from) - amount) as i128);
    lemma_sum_update(debited, keys, to, (balance_in(m, to) + amount) as i128);
    assert(balance_in(debited, to) == balance_in(m, to));
    lemma_sum_superset(m, keys);
}

/// A transfer from an account to itself credits it with the amount: both
/// balances are read before either write, and the credit is written last.
pub proof fn law_self_transfer_credits(m: Map<Seq<char>, i128>, account: Seq<char>, amount: i128)
    requires
        m.dom().finite(),
        can_transfer(m, account, account, amount),
    ensures
        balance_in(transferred(m, account, account, amount), account) == balance_in(m, account)
            + amount,
        total_supply(transferred(m, account, account, amount)) == total_supply(m) + amount,
{
    let after = transferred(m, account, account, amount);
    assert(after =~= m.insert(account, (balance_in(m, account) + amount) as i128));
    law_mint_adds_to_supply(m, account, amount);
}

/// A transfer between two different accounts debits the sender by the amount,
/// credits the receiver by it, and leaves every other balance as it was.
pub proof fn law_transfer_moves_amount(
    m: Map<Seq<char>, i128>,
    from: Seq<char>,
    to: Seq<char>,
    amount: i128,
    other: Seq<char>,
)
    requires
        from != to,
        can_transfer(m, from, to, amount),
    ensures
        balance_in(transferred(m, from, to, amount), from) == balance_in(m, from) - amount,
        balance_in(transferred(m, from, to, amount), to) == balance_in(m, to) + amount,
        other != from && other != to ==> balance_in(transferred(m, from, to, amount), other)
            == balance_in(m, other),
{
}

/// Sending an amount from one account to another and then, where the return
/// transfer goes through, back again leaves every balance as it was.
pub proof fn law_transfer_round_trip(
    m: Map<Seq<char>, i128>,
    a: Seq<char>,
    b: Seq<char>,
    amount: i128,
    account: Seq<char>,
)
    requires
        a != b,
        can_transfer(m, a, b, amount),
        can_transfer(transferred(m, a, b, amount), b, a, amount),
    ensures
        balance_in(transferred(transferred(m, a, b, amount), b, a, amount), account)
            == balance_in(m, account),
{
}

/// Two mints to one account amount to a single mint of their sum (where that
/// sum is itself an `i128`).
pub proof fn law_mint_additive(m: Map<Seq<char>, i128>, to: Seq<char>, x: i128, y: i128)
    requires
        can_mint(m, to, x),
        can_mint(minted(m, to, x), to, y),
        i128::MIN <= x + y <= i128::MAX,
    ensures
        can_mint(m, to, (x + y) as i128),
        minted(minted(m, to, x), to, y) == minted(m, to, (x + y) as i128),
{
    assert(minted(minted(m, to, x), to, y) =~= minted(m, to, (x + y) as i128));
}

/// A mint credits only its account: every other balance is as it was.
pub proof fn law_mint_local(m: Map<Seq<char>, i128>, to: Seq<char>, amount: i128, other: Seq<char>)
    requires
        can_mint(m, to, amount),
    ensures
        balance_in(minted(m, to, amount), to) == balance_in(m, to) + amount,
        other != to ==> balance_in(minted(m, to, amount), other) == balance_in(m, other),
{
}

/// After `owner` approves `amount` for `spender` until `expiration_ledger`, the
/// allowance of the pair is `amount` at every ledger sequence up to the
/// expiration (at every one, for an expiration of zero) and zero after it;
/// balances and the allowances of other pairs are untouched.
pub proof fn law_approve_then_allowance(
    s: LedgerState,
    owner: Seq<char>,
    spender: Seq<char>,
    amount: i128,
    expiration_ledger: u32,
    ledger: u32,
    other_owner: Seq<char>,
    other_spender: Seq<char>,
)
    requires
        amount >= 0,
    ensures
        allowance_at(approved(s, owner, spender, amount, expiration_ledger), owner, spender, ledger)
            == (if expiration_ledger > 0 && expiration_ledger < ledger {
            0
        } else {
            amount as int
        }),
        approved(s, owner, spender, amount, expiration_ledger).balances == s.balances,
        (other_owner, other_spender) != (owner, spender) ==> allowance_at(
            approved(s, owner, spender, amount, expiration_ledger),
            other_owner,
            other_spender,
            ledger,
        ) == allowance_at(s, other_owner, other_spender, ledger),
{
}

/// A transfer by a spender reduces the allowance of the pair, as seen at the
/// same ledger sequence, by exactly the amount moved, leaves the allowances of
/// other pairs as they were, and between two different accounts keeps the
/// total supply.
pub proof fn law_transfer_from_spends_allowance(
    s: LedgerState,
    spender: Seq<char>,
    from: Seq<char>,
    to: Seq<char>,
    amount: i128,
    ledger: u32,
    other_owner: Seq<char>,
    other_spender: Seq<char>,
)
    requires
        s.balances.dom().finite(),
        can_transfer_from(s, spender, from, to, amount, ledger),
    ensures
        allowance_at(transferred_from(s, spender, from, to, amount, ledger), from, spender, ledger)
            == allowance_at(s, from, spender, ledger) - amount,
        (other_owner, other_spender) != (from, spender) ==> allowance_at(
            transferred_from(s, spender, from, to, amount, ledger),
            other_owner,
            other_spender,
            ledger,
        ) == allowance_at(s, other_owner, other_spender, ledger),
        from != to ==> total_supply(transferred_from(s, spender, from, to, amount, ledger).balances)
            == total_supply(s.balances),
{
    if from != to {
        law_transfer_preserves_supply(s.balances, from, to, amount);
    }
}

/// A transfer by a spender moves the tokens whoever the spender is (the
/// recipient itself too): between two different accounts the owner loses the
/// amount, the recipient gains it, whatever either held before, and every
/// other balance is as it was; to the owner itself it credits the amount, as a
/// plain transfer does.
pub proof fn law_transfer_from_moves_tokens(
    s: LedgerState,
    spender: Seq<char>,
    from: Seq<char>,
    to: Seq<char>,
    amount: i128,
    ledger: u32,
    other: Seq<char>,
)
    requires
        can_transfer_from(s, spender, from, to, amount, ledger),
    ensures
        from != to ==> balance_in(
            transferred_from(s, spender, from, to, amount, ledger).balances,
            from,
        ) == balance_in(s.balances, from) - amount,
        from != to ==> balance_in(transferred_from(s, spender, from, to, amount, ledger).balances, to)
            == balance_in(s.balances, to) + amount,
        from == to ==> balance_in(
            transferred_from(s, spender, from, to, amount, ledger).balances,
            to,
        ) == balance_in(s.balances, to) + amount,
        other != from && other != to ==> balance_in(
            transferred_from(s, spender, from, to, amount, ledger).balances,
            other,
        ) == balance_in(s.balances, other),
{
}

/// A transfer by a spender writes only the allowance entry of the pair, as the
/// stored allowance minus the amount: every expiration stays as approved, so
/// at every ledger sequence the pair's allowance is its old one less the
/// amount until it expires, and zero after.
pub proof fn law_transfer_from_keeps_expiration(
    s: LedgerState,
    spender: Seq<char>,
    from: Seq<char>,
    to: Seq<char>,
    amount: i128,
    ledger: u32,
    later: u32,
)
    requires
        can_transfer_from(s, spender, from, to, amount, ledger),
    ensures
        transferred_from(s, spender, from, to, amount, ledger).expirations == s.expirations,
        s.allowances.contains_key((from, spender)),
        transferred_from(s, spender, from, to, amount, ledger).allowances == s.allowances.insert(
            (from, spender),
            (s.allowances[(from, spender)] - amount) as i128,
        ),
        allowance_at(transferred_from(s, spender, from, to, amount, ledger), from, spender, later)
            == (if allowance_at(s, from, spender, later) == 0 {
            0
        } else {
            s.allowances[(from, spender)] - amount
        }),
{
}

/// A pair without an allowance entry has an allowance of zero at every ledger
/// sequence; a pair with one has either zero (expired) or the stored amount.
pub proof fn law_allowance_from_entry(
    s: LedgerState,
    owner: Seq<char>,
    spender: Seq<char>,
    ledger: u32,
)
    ensures
        !s.allowances.contains_key((owner, spender)) ==> allowance_at(s, owner, spender, ledger)
            == 0,
        s.allowances.contains_key((owner, spender)) ==> (allowance_at(s, owner, spender, ledger)
            == 0 || allowance_at(s, owner, spender, ledger) == s.allowances[(owner, spender)]),
        !s.expirations.contains_key((owner, spender)) || s.expirations[(owner, spender)] == 0
            || ledger <= s.expirations[(owner, spender)] ==> allowance_at(s, owner, spender, ledger)
            == (if s.allowances.contains_key((owner, spender)) {
            s.allowances[(owner, spender)] as int
        } else {
            0
        }),
{
}

/// An account without a balance entry holds zero; one with an entry holds
/// exactly the stored amount.
pub proof fn law_balance_from_entry(m: Map<Seq<char>, i128>, account: Seq<char>)
    ensures
        !m.contains_key(account) ==> balance_in(m, account) == 0,
        m.contains_key(account) ==> balance_in(m, account) == m[account],
        balance_in(Map::<Seq<char>, i128>::empty(), account) == 0,
{
}

/// A transfer goes through exactly when the amount is positive, the sender
/// holds at least the amount, and the receiver's credit fits in an `i128`; a
/// spender's transfer needs, besides, an allowance at that ledger sequence
/// that covers the amount. An accepted spender's transfer never overdraws a
/// sender that held a non-negative balance.
pub proof fn law_transfer_acceptance(
    s: LedgerState,
    spender: Seq<char>,
    from: Seq<char>,
    to: Seq<char>,
    amount: i128,
    ledger: u32,
)
    ensures
        can_transfer(s.balances, from, to, amount) <==> (amount > 0 && balance_in(
            s.balances,
            from,
        ) >= amount && balance_in(s.balances, to) + amount <= i128::MAX),
        can_transfer_from(s, spender, from, to, amount, ledger) <==> (can_transfer(
            s.balances,
            from,
            to,
            amount,
        ) && allowance_at(s, from, spender, ledger) >= amount),
        can_transfer_from(s, spender, from, to, amount, ledger) && from != to ==> balance_in(
            transferred_from(s, spender, from, to, amount, ledger).balances,
            from,
        ) >= 0,
        can_transfer_from(s, spender, from, to, amount, ledger) ==> s.allowances.contains_key(
            (from, spender),
        ) && s.allowances[(from, spender)] >= amount,
{
}

} // verus!
