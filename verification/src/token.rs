//! The token ledger: balances of accounts, minting, transfers, and allowances
//! that let a spender move an owner's tokens until a ledger sequence number.
//!
//! Accounts are named by their strkey (the textual form of an address).
//! An account that has never been written holds a balance of zero.
use crate::pair_map::AccountPairMap;
use vstd::hash_map::StringHashMap;
use vstd::prelude::*;

verus! {

/// The balance that the ledger `m` gives `account`: its stored entry, or zero
/// where it has none.
pub open spec fn balance_in(m: Map<Seq<char>, i128>, account: Seq<char>) -> int {
    if m.contains_key(account) {
        m[account] as int
    } else {
        0
    }
}

/// Whether `amount` can be minted to `to`: the new balance fits in an `i128`.
pub open spec fn can_mint(m: Map<Seq<char>, i128>, to: Seq<char>, amount: i128) -> bool {
    i128::MIN <= balance_in(m, to) + amount <= i128::MAX
}

/// The ledger after `amount` is minted to `to`: the entry of `to` is written
/// with its old balance plus `amount`.
pub open spec fn minted(m: Map<Seq<char>, i128>, to: Seq<char>, amount: i128) -> Map<
    Seq<char>,
    i128,
> {
    m.insert(to, (balance_in(m, to) + amount) as i128)
}

/// Whether a transfer of `amount` from `from` to `to` goes through: the amount
/// is positive, `from` holds at least that much, and the credited balance of
/// `to` (as read before the debit) fits in an `i128`.
pub open spec fn can_transfer(
    m: Map<Seq<char>, i128>,
    from: Seq<char>,
    to: Seq<char>,
    amount: i128,
) -> bool {
    &&& amount > 0
    &&& balance_in(m, from) >= amount
    &&& balance_in(m, to) + amount <= i128::MAX
}

/// The ledger after a transfer: both balances are read first, then `from` is
/// written with its balance minus `amount` and `to` with its balance plus
/// `amount`. Where `from` and `to` are the same account, the second write wins.
pub open spec fn transferred(
    m: Map<Seq<char>, i128>,
    from: Seq<char>,
    to: Seq<char>,
    amount: i128,
) -> Map<Seq<char>, i128> {
    m.insert(from, (balance_in(m, from) - amount) as i128).insert(
        to,
        (balance_in(m, to) + amount) as i128,
    )
}

/// What a token holds: the balance entries, and for each (owner, spender) pair
/// the allowance entry and the entry of the ledger sequence it expires after.
pub struct LedgerState {
    pub balances: Map<Seq<char>, i128>,
    pub allowances: Map<(Seq<char>, Seq<char>), i128>,
    pub expirations: Map<(Seq<char>, Seq<char>), u32>,
}

/// The allowance that `owner` has given `spender`, as seen at ledger sequence
/// `ledger`: zero once the recorded expiration (if not zero) lies before
/// `ledger`, else the stored allowance, zero where none is stored.
pub open spec fn allowance_at(
    s: LedgerState,
    owner: Seq<char>,
    spender: Seq<char>,
    ledger: u32,
) -> int {
    let key = (owner, spender);
    let expiration: u32 = if s.expirations.contains_key(key) {
        s.expirations[key]
    } else {
        0
    };
    if expiration > 0 && expiration < ledger {
        0
    } else if s.allowances.contains_key(key) {
        s.allowances[key] as int
    } else {
        0
    }
}

/// The token after `owner` lets `spender` move `amount` until ledger sequence
/// `expiration_ledger`: both entries of the pair are written, nothing else.
pub open spec fn approved(
    s: LedgerState,
    owner: Seq<char>,
    spender: Seq<char>,
    amount: i128,
    expiration_ledger: u32,
) -> LedgerState {
    LedgerState {
        allowances: s.allowances.insert((owner, spender), amount),
        expirations: s.expirations.insert((owner, spender), expiration_ledger),
        ..s
    }
}

/// Whether `spender` can move `amount` from `from` to `to` at ledger sequence
/// `ledger`: the amount is positive, the allowance at that sequence covers it,
/// and the transfer itself goes through.
pub open spec fn can_transfer_from(
    s: LedgerState,
    spender: Seq<char>,
    from: Seq<char>,
    to: Seq<char>,
    amount: i128,
    ledger: u32,
) -> bool {
    &&& amount > 0
    &&& allowance_at(s, from, spender, ledger) >= amount
    &&& can_transfer(s.balances, from, to, amount)
}

/// The token after `spender` moves `amount` from `from` to `to` at ledger
/// sequence `ledger`: the balances change as in a transfer, and the allowance
/// entry of (`from`, `spender`) is written with the allowance minus `amount`.
pub open spec fn transferred_from(
    s: LedgerState,
    spender: Seq<char>,
    from: Seq<char>,
    to: Seq<char>,
    amount: i128,
    ledger: u32,
) -> LedgerState {
    LedgerState {
        balances: transferred(s.balances, from, to, amount),
        allowances: s.allowances.insert(
            (from, spender),
            (allowance_at(s, from, spender, ledger) - amount) as i128,
        ),
        ..s
    }
}

/// A token: its balance entries and its allowance entries.
pub struct TestToken {
    balances: StringHashMap<i128>,
    allowances: AccountPairMap<i128>,
    expirations: AccountPairMap<u32>,
}

impl View for TestToken {
    type V = LedgerState;

    closed spec fn view(&self) -> LedgerState {
        LedgerState {
            balances: self.balances@,
            allowances: self.allowances.map(),
            expirations: self.expirations.map(),
        }
    }
}

impl TestToken {
    /// A token with no entries: every account holds zero and has given no
    /// allowance.
    pub fn new() -> (token: Self)
        ensures
            token@.balances == Map::<Seq<char>, i128>::empty(),
            token@.allowances == Map::<(Seq<char>, Seq<char>), i128>::empty(),
            token@.expirations == Map::<(Seq<char>, Seq<char>), u32>::empty(),
    {
        TestToken {
            balances: StringHashMap::new(),
            allowances: AccountPairMap::new(),
            expirations: AccountPairMap::new(),
        }
    }

    /// Writes the balance entry of `account`, as when a token is loaded back
    /// from storage.
    pub fn load_balance(&mut self, account: String, stored: i128)
        ensures
            final(self)@ == (LedgerState {
                balances: old(self)@.balances.insert(account@, stored),
                ..old(self)@
            }),
    {
        self.balances.insert(account, stored);
    }

    /// Writes the allowance entry of (`owner`, `spender`), as when a token is
    /// loaded back from storage.
    pub fn load_allowance(&mut self, owner: String, spender: String, stored: i128)
        ensures
            final(self)@ == (LedgerState {
                allowances: old(self)@.allowances.insert((owner@, spender@), stored),
                ..old(self)@
            }),
    {
        self.allowances.insert(owner, spender, stored);
    }

    /// Writes the expiration entry of (`owner`, `spender`), as when a token is
    /// loaded back from storage.
    pub fn load_expiration(&mut self, owner: String, spender: String, stored: u32)
        ensures
            final(self)@ == (LedgerState {
                expirations: old(self)@.expirations.insert((owner@, spender@), stored),
                ..old(self)@
            }),
    {
        self.expirations.insert(owner, spender, stored);
    }

    fn stored_balance(&self, account: &str) -> (balance: i128)
        ensures
            balance == balance_in(self@.balances, account@),
    {
        match self.balances.get(account) {
            Some(b) => *b,
            None => 0,
        }
    }

    /// Credits `amount` to `to`. Any amount is accepted, a negative one too.
    pub fn mint(&mut self, to: String, amount: i128)
        requires
            can_mint(old(self)@.balances, to@, amount),
        ensures
            final(self)@ == (LedgerState {
                balances: minted(old(self)@.balances, to@, amount),
                ..old(self)@
            }),
    {
        let balance = self.stored_balance(to.as_str());
        self.balances.insert(to, balance + amount);
    }

    /// Moves `amount` from `from` to `to`.
    pub fn transfer(&mut self, from: String, to: String, amount: i128)
        requires
            can_transfer(old(self)@.balances, from@, to@, amount),
        ensures
            final(self)@ == (LedgerState {
                balances: transferred(old(self)@.balances, from@, to@, amount),
                ..old(self)@
            }),
    {
        let from_balance = self.stored_balance(from.as_str());
        let to_balance = self.stored_balance(to.as_str());
        self.balances.insert(from, from_balance - amount);
        self.balances.insert(to, to_balance + amount);
    }

    /// The balance of `owner`: zero for an account that has no entry.
    pub fn balance(&self, owner: String) -> (balance: i128)
        ensures
            balance == balance_in(self@.balances, owner@),
    {
        self.stored_balance(owner.as_str())
    }

    /// Lets `spender` move up to `amount` of the tokens of `from`, until
    /// ledger sequence `expiration_ledger` (zero: without end). Replaces any
    /// earlier allowance of the pair.
    pub fn approve(&mut self, from: String, spender: String, amount: i128, expiration_ledger: u32)
        requires
            amount >= 0,
        ensures
            final(self)@ == approved(old(self)@, from@, spender@, amount, expiration_ledger),
    {
        let from2 = from.clone();
        let spender2 = spender.clone();
        self.allowances.insert(from, spender, amount);
        self.expirations.insert(from2, spender2, expiration_ledger);
    }

    /// The allowance entry stored for (`owner`, `spender`), whatever its
    /// expiration.
    pub fn stored_allowance(&self, owner: &String, spender: &String) -> (stored: Option<i128>)
        ensures
            stored == (if self@.allowances.contains_key((owner@, spender@)) {
                Some(self@.allowances[(owner@, spender@)])
            } else {
                None::<i128>
            }),
    {
        self.allowances.get(owner, spender)
    }

    /// The allowance that `from` has given `spender`, as seen at ledger
    /// sequence `current_ledger`.
    pub fn allowance(&self, from: &String, spender: &String, current_ledger: u32) -> (allowance:
        i128)
        ensures
            allowance == allowance_at(self@, from@, spender@, current_ledger),
    {
        let expiration: u32 = match self.expirations.get(from, spender) {
            Some(e) => e,
            None => 0,
        };
        if expiration > 0 && expiration < current_ledger {
            return 0;
        }
        match self.allowances.get(from, spender) {
            Some(a) => a,
            None => 0,
        }
    }

    /// `spender` moves `amount` of the tokens of `from` to `to`, at ledger
    /// sequence `current_ledger`, and the allowance is reduced by `amount`.
    pub fn transfer_from(
        &mut self,
        spender: String,
        from: String,
        to: String,
        amount: i128,
        current_ledger: u32,
    )
        requires
            can_transfer_from(old(self)@, spender@, from@, to@, amount, current_ledger),
        ensures
            final(self)@ == transferred_from(
                old(self)@,
                spender@,
                from@,
                to@,
                amount,
                current_ledger,
            ),
    {
        let allowance = self.allowance(&from, &spender, current_ledger);
        let from_balance = self.stored_balance(from.as_str());
        let to_balance = self.stored_balance(to.as_str());
        let from2 = from.clone();
        self.balances.insert(from, from_balance - amount);
        self.balances.insert(to, to_balance + amount);
        self.allowances.insert(from2, spender, allowance - amount);
    }
}

} // verus!
