//! Sparse tables of amounts, the storage behind balances and allowances.
//!
//! A table keeps its entries in a vector and answers for a key with the first
//! entry that carries it; a key without an entry stands for zero.

use vstd::prelude::*;
use crate::account::AccountId;
use crate::model::{amount_at, is_sparse, with_amount};

verus! {

/// Keys that can be told apart at run time.
pub trait TableKey: Sized {
    /// Whether `self` and `other` are the same key.
    fn same(&self, other: &Self) -> (same: bool)
        ensures
            same == (*self == *other),
    ;
}

impl TableKey for AccountId {
    fn same(&self, other: &AccountId) -> (same: bool) {
        *self == *other
    }
}

impl TableKey for (AccountId, AccountId) {
    fn same(&self, other: &(AccountId, AccountId)) -> (same: bool) {
        self.0 == other.0 && self.1 == other.1
    }
}

/// One stored amount.
pub struct Entry<K> {
    pub key: K,
    pub amount: u128,
}

/// The amount that `entries` record for `key`: that of the first entry with
/// this key, or zero.
pub open spec fn stored<K>(entries: Seq<Entry<K>>, key: K) -> nat
    decreases entries.len(),
{
    if entries.len() == 0 {
        0
    } else if entries.first().key == key {
        entries.first().amount as nat
    } else {
        stored(entries.drop_first(), key)
    }
}

/// No entry before `end` carries `key`.
pub open spec fn absent_before<K>(entries: Seq<Entry<K>>, key: K, end: int) -> bool {
    forall|j: int| 0 <= j < end ==> (#[trigger] entries[j]).key != key
}

proof fn lemma_stored_has_entry<K>(entries: Seq<Entry<K>>, key: K)
    ensures
        stored(entries, key) > 0 ==> exists|i: int|
            0 <= i < entries.len() && (#[trigger] entries[i]).key == key,
    decreases entries.len(),
{
    if entries.len() > 0 && entries.first().key != key {
        let rest = entries.drop_first();
        lemma_stored_has_entry(rest, key);
        if stored(rest, key) > 0 {
            let i = choose|i: int| 0 <= i < rest.len() && (#[trigger] rest[i]).key == key;
            assert(entries[i + 1].key == key);
        }
    } else if entries.len() > 0 {
        assert(entries[0].key == key);
    }
}

proof fn lemma_stored_at_first_match<K>(entries: Seq<Entry<K>>, key: K, at: int)
    requires
        0 <= at < entries.len(),
        entries[at].key == key,
        absent_before(entries, key, at),
    ensures
        stored(entries, key) == entries[at].amount,
    decreases at,
{
    if at > 0 {
        let rest = entries.drop_first();
        assert(entries[0].key != key);
        assert forall|j: int| 0 <= j < at - 1 implies (#[trigger] rest[j]).key != key by {
            assert(entries[j + 1].key != key);
        }
        lemma_stored_at_first_match(rest, key, at - 1);
    }
}

proof fn lemma_stored_absent<K>(entries: Seq<Entry<K>>, key: K)
    requires
        absent_before(entries, key, entries.len() as int),
    ensures
        stored(entries, key) == 0,
    decreases entries.len(),
{
    if entries.len() > 0 {
        let rest = entries.drop_first();
        assert(entries[0].key != key);
        assert forall|j: int| 0 <= j < rest.len() implies (#[trigger] rest[j]).key != key by {
            assert(entries[j + 1].key != key);
        }
        lemma_stored_absent(rest, key);
    }
}

proof fn lemma_stored_after_update<K>(entries: Seq<Entry<K>>, at: int, entry: Entry<K>, key: K)
    requires
        0 <= at < entries.len(),
        entries[at].key == entry.key,
        absent_before(entries, entry.key, at),
    ensures
        stored(entries.update(at, entry), key) == if key == entry.key {
            entry.amount as nat
        } else {
            stored(entries, key)
        },
    decreases at,
{
    let updated = entries.update(at, entry);
    if at > 0 {
        let rest = entries.drop_first();
        assert(entries[0].key != entry.key);
        assert forall|j: int| 0 <= j < at - 1 implies (#[trigger] rest[j]).key != entry.key by {
            assert(entries[j + 1].key != entry.key);
        }
        lemma_stored_after_update(rest, at - 1, entry, key);
        assert(updated.drop_first() =~= rest.update(at - 1, entry));
    } else {
        assert(updated.drop_first() =~= entries.drop_first());
    }
}

proof fn lemma_stored_after_push<K>(entries: Seq<Entry<K>>, entry: Entry<K>, key: K)
    requires
        absent_before(entries, entry.key, entries.len() as int),
    ensures
        stored(entries.push(entry), key) == if key == entry.key {
            entry.amount as nat
        } else {
            stored(entries, key)
        },
    decreases entries.len(),
{
    let pushed = entries.push(entry);
    if entries.len() > 0 {
        let rest = entries.drop_first();
        assert(entries[0].key != entry.key);
        assert forall|j: int| 0 <= j < rest.len() implies (#[trigger] rest[j]).key
            != entry.key by {
            assert(entries[j + 1].key != entry.key);
        }
        lemma_stored_after_push(rest, entry, key);
        assert(pushed.drop_first() =~= rest.push(entry));
    } else {
        assert(pushed.drop_first() =~= entries);
    }
}

/// A sparse table from keys to amounts.
pub struct Table<K> {
    entries: Vec<Entry<K>>,
}

impl<K> View for Table<K> {
    type V = Map<K, nat>;

    closed spec fn view(&self) -> Map<K, nat> {
        Map::new(
            |key: K| stored(self.entries@, key) > 0,
            |key: K| stored(self.entries@, key),
        )
    }
}

impl<K: TableKey> Table<K> {
    /// What a table holds is sparse.
    pub proof fn lemma_view_sparse(&self)
        ensures
            is_sparse(self@),
    {
        let entries = self.entries@;
        let keys = entries.map_values(|entry: Entry<K>| entry.key).to_set();
        vstd::seq_lib::seq_to_set_is_finite(entries.map_values(|entry: Entry<K>| entry.key));
        assert forall|key: K| self@.dom().contains(key) implies keys.contains(key) by {
            lemma_stored_has_entry(entries, key);
            let i = choose|i: int| 0 <= i < entries.len() && (#[trigger] entries[i]).key == key;
            assert(entries.map_values(|entry: Entry<K>| entry.key)[i] == key);
        }
        vstd::set_lib::lemma_set_subset_finite(keys, self@.dom());
    }

    /// A table without entries.
    pub fn new() -> (table: Table<K>)
        ensures
            table@ == Map::<K, nat>::empty(),
    {
        let table = Table { entries: Vec::new() };
        assert(table@ =~= Map::<K, nat>::empty());
        table
    }

    /// Where the first entry for `key` stands, if there is one.
    fn position(&self, key: &K) -> (found: Option<usize>)
        ensures
            match found {
                Some(at) => {
                    &&& at < self.entries@.len()
                    &&& self.entries@[at as int].key == *key
                    &&& absent_before(self.entries@, *key, at as int)
                },
                None => absent_before(self.entries@, *key, self.entries@.len() as int),
            },
    {
        let mut at: usize = 0;
        while at < self.entries.len()
            invariant
                at <= self.entries@.len(),
                absent_before(self.entries@, *key, at as int),
            decreases self.entries@.len() - at,
        {
            if self.entries[at].key.same(key) {
                return Some(at);
            }
            at += 1;
        }
        None
    }

    /// The amount recorded for `key`; zero where there is none.
    pub fn get(&self, key: &K) -> (amount: u128)
        ensures
            amount == amount_at(self@, *key),
    {
        match self.position(key) {
            Some(at) => {
                proof {
                    lemma_stored_at_first_match(self.entries@, *key, at as int);
                }
                self.entries[at].amount
            },
            None => {
                proof {
                    lemma_stored_absent(self.entries@, *key);
                }
                0
            },
        }
    }

    /// Sets the amount of `key` to `amount`, whatever it was.
    pub fn set(&mut self, key: K, amount: u128)
        ensures
            final(self)@ == with_amount(old(self)@, key, amount as nat),
    {
        let ghost before = self.entries@;
        let found = self.position(&key);
        let entry = Entry { key, amount };
        match found {
            Some(at) => {
                self.entries[at] = entry;
                proof {
                    assert forall|other: K| stored(self.entries@, other) == if other == key {
                        amount as nat
                    } else {
                        stored(before, other)
                    } by {
                        lemma_stored_after_update(before, at as int, entry, other);
                    }
                }
            },
            None => {
                self.entries.push(entry);
                proof {
                    assert forall|other: K| stored(self.entries@, other) == if other == key {
                        amount as nat
                    } else {
                        stored(before, other)
                    } by {
                        lemma_stored_after_push(before, entry, other);
                    }
                }
            },
        }
        assert(self@ =~= with_amount(old(self)@, key, amount as nat));
    }
}

} // verus!
