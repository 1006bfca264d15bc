//! A map keyed by a pair of accounts (an owner and a spender), held as a list
//! of entries in which no pair occurs twice.
use vstd::prelude::*;

verus! {

/// The pair of accounts that an entry is stored under.
pub open spec fn entry_key<V>(e: (String, String, V)) -> (Seq<char>, Seq<char>) {
    (e.0@, e.1@)
}

/// Entries keyed by an (owner, spender) pair of accounts.
pub struct AccountPairMap<V> {
    entries: Vec<(String, String, V)>,
}

impl<V> AccountPairMap<V> {
    /// No pair of accounts is stored twice.
    #[verifier::type_invariant]
    spec fn keys_distinct(self) -> bool {
        forall|i: int, j: int|
            0 <= i < j < self.entries@.len() ==> entry_key(#[trigger] self.entries@[i])
                != entry_key(#[trigger] self.entries@[j])
    }

    spec fn index_of(self, key: (Seq<char>, Seq<char>)) -> int {
        choose|i: int| 0 <= i < self.entries@.len() && entry_key(self.entries@[i]) == key
    }

    spec fn has_key(self, key: (Seq<char>, Seq<char>)) -> bool {
        exists|i: int| 0 <= i < self.entries@.len() && entry_key(self.entries@[i]) == key
    }

    /// The stored value of each pair of accounts.
    pub closed spec fn map(self) -> Map<(Seq<char>, Seq<char>), V> {
        Map::new(|k: (Seq<char>, Seq<char>)| self.has_key(k), |k| self.entries@[self.index_of(k)].2)
    }

}

impl<V: Copy> AccountPairMap<V> {
    /// An empty map.
    pub fn new() -> (result: Self)
        ensures
            result.map() == Map::<(Seq<char>, Seq<char>), V>::empty(),
    {
        let result = AccountPairMap { entries: Vec::new() };
        assert(result.map() =~= Map::<(Seq<char>, Seq<char>), V>::empty());
        result
    }

    fn find(&self, owner: &String, spender: &String) -> (index: Option<usize>)
        ensures
            match index {
                Some(i) => i < self.entries@.len() && entry_key(self.entries@[i as int]) == (
                    owner@,
                    spender@,
                ),
                None => !self.has_key((owner@, spender@)),
            },
    {
        let mut i: usize = 0;
        while i < self.entries.len()
            invariant
                i <= self.entries@.len(),
                forall|j: int|
                    0 <= j < i ==> entry_key(#[trigger] self.entries@[j]) != (owner@, spender@),
            decreases self.entries@.len() - i,
        {
            let e = &self.entries[i];
            if e.0 == *owner && e.1 == *spender {
                return Some(i);
            }
            i = i + 1;
        }
        None
    }

    /// The value stored under (`owner`, `spender`), if any.
    pub fn get(&self, owner: &String, spender: &String) -> (value: Option<V>)
        ensures
            match value {
                Some(v) => self.map().contains_key((owner@, spender@)) && self.map()[(
                    owner@,
                    spender@,
                )] == v,
                None => !self.map().contains_key((owner@, spender@)),
            },
    {
        proof {
            use_type_invariant(self);
        }
        match self.find(owner, spender) {
            Some(i) => {
                let ghost key = (owner@, spender@);
                assert(self.has_key(key));
                let ghost k = self.index_of(key);
                assert(k == i as int);
                Some(self.entries[i].2)
            },
            None => None,
        }
    }

    /// Stores `value` under (`owner`, `spender`), in place of any earlier value.
    pub fn insert(&mut self, owner: String, spender: String, value: V)
        ensures
            final(self).map() == old(self).map().insert((owner@, spender@), value),
    {
        proof {
            use_type_invariant(&*self);
        }
        let ghost key = (owner@, spender@);
        let ghost before = self.entries@;
        let found = self.find(&owner, &spender);
        let mut entries: Vec<(String, String, V)> = Vec::new();
        std::mem::swap(&mut entries, &mut self.entries);
        match found {
            Some(i) => {
                entries.set(i, (owner, spender, value));
                proof {
                    assert forall|a: int, b: int|
                        0 <= a < b < entries@.len() implies entry_key(#[trigger] entries@[a])
                        != entry_key(#[trigger] entries@[b]) by {
                        assert(entry_key(before[a]) != entry_key(before[b]));
                    }
                }
                self.entries = entries;
                proof {
                    assert forall|k: (Seq<char>, Seq<char>)| #[trigger]
                        self.has_key(k) == old(self).has_key(k) || k == key by {
                        if old(self).has_key(k) {
                            let j = old(self).index_of(k);
                            assert(entry_key(self.entries@[j]) == k || j == i);
                        }
                        if self.has_key(k) {
                            let j = self.index_of(k);
                            assert(entry_key(before[j]) == k || j == i);
                        }
                    }
                    assert forall|k: (Seq<char>, Seq<char>)|
                        self.has_key(k) && k != key implies self.entries@[self.index_of(k)]
                        == before[old(self).index_of(k)] by {
                        let j = self.index_of(k);
                        assert(j != i);
                        assert(entry_key(before[j]) == k);
                    }
                    assert(entry_key(self.entries@[i as int]) == key);
                    assert(self.has_key(key));
                    assert(self.index_of(key) == i);
                    assert(self.map() =~= old(self).map().insert(key, value));
                }
            },
            None => {
                entries.push((owner, spender, value));
                proof {
                    let n = before.len() as int;
                    assert forall|a: int, b: int|
                        0 <= a < b < entries@.len() implies entry_key(#[trigger] entries@[a])
                        != entry_key(#[trigger] entries@[b]) by {
                        if b == n {
                            assert(entry_key(before[a]) != key);
                        } else {
                            assert(entry_key(before[a]) != entry_key(before[b]));
                        }
                    }
                }
                self.entries = entries;
                proof {
                    let n = before.len() as int;
                    assert(entry_key(self.entries@[n]) == key);
                    assert forall|k: (Seq<char>, Seq<char>)| k != key implies #[trigger]
                        self.has_key(k) == old(self).has_key(k) by {
                        if self.has_key(k) {
                            let j = self.index_of(k);
                            assert(j != n);
                            assert(entry_key(before[j]) == k);
                        }
                        if old(self).has_key(k) {
                            let j = old(self).index_of(k);
                            assert(self.entries@[j] == before[j]);
                        }
                    }
                    assert forall|k: (Seq<char>, Seq<char>)|
                        self.has_key(k) && k != key implies self.entries@[self.index_of(k)]
                        == before[old(self).index_of(k)] by {
                        let j = self.index_of(k);
                        assert(j != n);
                        assert(entry_key(before[j]) == k);
                    }
                    assert(self.index_of(key) == n);
                    assert(self.map() =~= old(self).map().insert(key, value));
                }
            },
        }
    }
}

} // verus!
