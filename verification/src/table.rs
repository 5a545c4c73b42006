//! A sparse table of amounts: the store behind the balances and behind the
//! allowances. A key that was never written holds 0.

use crate::accounting::{amount_at, written};
use crate::address::Address;
use crate::amount::{amount_limit, Amount};
use vstd::prelude::*;

verus! {

/// A key of a table: a value that can be compared with another.
pub trait TableKey: Sized {
    /// Whether two keys are the same.
    fn same_key(&self, other: &Self) -> (r: bool)
        ensures
            r == (*self == *other),
    ;
}

impl TableKey for Address {
    fn same_key(&self, other: &Address) -> (r: bool) {
        *self == *other
    }
}

impl TableKey for (Address, Address) {
    fn same_key(&self, other: &(Address, Address)) -> (r: bool) {
        self.0 == other.0 && self.1 == other.1
    }
}

/// No key stands twice in a list of entries.
pub open spec fn keys_distinct<K>(entries: Seq<(K, Amount)>) -> bool {
    forall|i: int, j: int| 0 <= i < j < entries.len() ==> entries[i].0 != entries[j].0
}

/// The map that a list of entries stands for: each key with its amount.
pub open spec fn entries_map<K>(entries: Seq<(K, Amount)>) -> Map<K, nat>
    decreases entries.len(),
{
    if entries.len() == 0 {
        Map::empty()
    } else {
        entries_map(entries.drop_last()).insert(entries.last().0, entries.last().1@)
    }
}

/// The keys of the map are the keys of the list; it is finite, and no
/// amount in it reaches 2^256.
pub proof fn lemma_entries_map_keys<K>(entries: Seq<(K, Amount)>)
    ensures
        entries_map(entries).dom().finite(),
        forall|key: K|
            entries_map(entries).dom().contains(key) <==> exists|i: int|
                0 <= i < entries.len() && #[trigger] entries[i].0 == key,
        forall|key: K|
            entries_map(entries).dom().contains(key) ==> #[trigger] entries_map(entries)[key]
                < amount_limit(),
    decreases entries.len(),
{
    if entries.len() > 0 {
        let front = entries.drop_last();
        lemma_entries_map_keys(front);
        entries.last().1.lemma_bounded();
        assert forall|key: K| entries_map(entries).dom().contains(key) implies exists|i: int|
            0 <= i < entries.len() && #[trigger] entries[i].0 == key by {
            if key == entries.last().0 {
                assert(entries[entries.len() - 1].0 == key);
            } else {
                let i = choose|i: int| 0 <= i < front.len() && #[trigger] front[i].0 == key;
                assert(entries[i].0 == key);
            }
        }
        assert forall|key: K|
            (exists|i: int|
                0 <= i < entries.len() && #[trigger] entries[i].0
                    == key) implies entries_map(entries).dom().contains(key) by {
            let i = choose|i: int| 0 <= i < entries.len() && #[trigger] entries[i].0 == key;
            if i < front.len() {
                assert(front[i].0 == key);
            }
        }
    }
}

/// Where no key stands twice, the map holds under each key of the list the
/// amount that stands beside it.
pub proof fn lemma_entries_map_at<K>(entries: Seq<(K, Amount)>, i: int)
    requires
        keys_distinct(entries),
        0 <= i < entries.len(),
    ensures
        entries_map(entries).dom().contains(entries[i].0),
        entries_map(entries)[entries[i].0] == entries[i].1@,
    decreases entries.len(),
{
    if i < entries.len() - 1 {
        let front = entries.drop_last();
        lemma_entries_map_at(front, i);
    }
}

/// Where no key stands twice, to replace the amount beside a key in the
/// list is to insert the new amount under that key in the map.
pub proof fn lemma_entries_map_update<K>(entries: Seq<(K, Amount)>, i: int, amount: Amount)
    requires
        keys_distinct(entries),
        0 <= i < entries.len(),
    ensures
        keys_distinct(entries.update(i, (entries[i].0, amount))),
        entries_map(entries.update(i, (entries[i].0, amount))) == entries_map(entries).insert(
            entries[i].0,
            amount@,
        ),
    decreases entries.len(),
{
    let key = entries[i].0;
    let after = entries.update(i, (key, amount));
    let front = entries.drop_last();
    if i < entries.len() - 1 {
        lemma_entries_map_update(front, i, amount);
        assert(after.drop_last() =~= front.update(i, (key, amount)));
        assert(entries_map(after) =~= entries_map(entries).insert(key, amount@));
    } else {
        assert(after.drop_last() =~= front);
        assert(entries_map(after) =~= entries_map(entries).insert(key, amount@));
    }
}

/// A sparse table from keys to amounts.
pub struct Table<K> {
    entries: Vec<(K, Amount)>,
}

impl<K> View for Table<K> {
    type V = Map<K, nat>;

    /// The table as a map: the keys that were written, each with its amount.
    closed spec fn view(&self) -> Map<K, nat> {
        entries_map(self.entries@)
    }
}

impl<K> Table<K> {
    #[verifier::type_invariant]
    spec fn well_formed(self) -> bool {
        keys_distinct(self.entries@)
    }
}

impl<K: TableKey> Table<K> {
    /// The table is finite and none of its amounts reaches 2^256.
    pub proof fn lemma_view_bounded(self)
        ensures
            self@.dom().finite(),
            forall|key: K| self@.dom().contains(key) ==> #[trigger] self@[key] < amount_limit(),
    {
        lemma_entries_map_keys(self.entries@);
    }

    /// A table with no entries.
    pub fn new() -> (r: Table<K>)
        ensures
            r@ == Map::<K, nat>::empty(),
    {
        Table { entries: Vec::new() }
    }

    /// Where `key` stands in the list of entries, if it does.
    fn position(&self, key: &K) -> (r: Option<usize>)
        ensures
            match r {
                Some(i) => i < self.entries@.len() && self.entries@[i as int].0 == *key,
                None => forall|j: int| 0 <= j < self.entries@.len() ==> self.entries@[j].0 != *key,
            },
    {
        let mut i: usize = 0;
        while i < self.entries.len()
            invariant
                i <= self.entries@.len(),
                forall|j: int| 0 <= j < i ==> self.entries@[j].0 != *key,
            decreases self.entries@.len() - i,
        {
            if self.entries[i].0.same_key(key) {
                return Some(i);
            }
            i += 1;
        }
        None
    }

    /// The amount under `key`, 0 where the key was never written.
    pub fn get(&self, key: &K) -> (r: Amount)
        ensures
            r@ == amount_at(self@, *key),
    {
        proof {
            use_type_invariant(self);
            lemma_entries_map_keys(self.entries@);
        }
        match self.position(key) {
            Some(i) => {
                proof {
                    lemma_entries_map_at(self.entries@, i as int);
                }
                self.entries[i].1
            },
            None => Amount::zero(),
        }
    }

    /// Puts `amount` under `key`, whether or not the key has an entry.
    fn put(&mut self, key: K, amount: Amount)
        ensures
            final(self)@ == old(self)@.insert(key, amount@),
    {
        proof {
            use_type_invariant(&*self);
            lemma_entries_map_keys(self.entries@);
        }
        let found = self.position(&key);
        let mut entries: Vec<(K, Amount)> = Vec::new();
        std::mem::swap(&mut self.entries, &mut entries);
        match found {
            Some(i) => {
                proof {
                    lemma_entries_map_update(entries@, i as int, amount);
                }
                entries[i] = (key, amount);
            },
            None => {
                entries.push((key, amount));
                assert(entries@.drop_last() =~= old(self).entries@);
            },
        }
        self.entries = entries;
    }

    /// Writes `amount` under `key`. An entry that exists is overwritten; a
    /// new entry is made only for an amount other than 0.
    pub fn set(&mut self, key: K, amount: Amount)
        ensures
            final(self)@ == written(old(self)@, key, amount@),
    {
        if !amount.is_zero() || self.holds(&key) {
            self.put(key, amount);
        }
    }

    /// Whether `key` has an entry.
    pub fn holds(&self, key: &K) -> (r: bool)
        ensures
            r == self@.dom().contains(*key),
    {
        proof {
            use_type_invariant(self);
            lemma_entries_map_keys(self.entries@);
        }
        self.position(key).is_some()
    }
}

impl<K: TableKey + Copy> Table<K> {
    /// The table that a list of entries stands for. Where a key stands more
    /// than once, its last entry counts.
    pub fn from_entries(entries: &Vec<(K, Amount)>) -> (r: Table<K>)
        ensures
            r@ == entries_map(entries@),
    {
        let mut table: Table<K> = Table::new();
        let mut i: usize = 0;
        while i < entries.len()
            invariant
                i <= entries@.len(),
                table@ == entries_map(entries@.take(i as int)),
            decreases entries@.len() - i,
        {
            let entry = entries[i];
            assert(entries@.take(i + 1).drop_last() =~= entries@.take(i as int));
            table.put(entry.0, entry.1);
            i += 1;
        }
        assert(entries@.take(i as int) =~= entries@);
        table
    }
}

} // verus!
