//! Sparse tables of amounts as mathematical maps: what a key holds, what a
//! write does to a table, and the sum of all that a table holds.

use vstd::prelude::*;

verus! {

/// What a table holds under `key`: the entry, or 0 where there is none.
pub open spec fn amount_at<K>(table: Map<K, nat>, key: K) -> nat {
    if table.dom().contains(key) {
        table[key]
    } else {
        0
    }
}

/// The table after `value` is written under `key`. An entry that exists is
/// overwritten; a new entry is made only for a value other than 0. No entry
/// is ever taken away.
pub open spec fn written<K>(table: Map<K, nat>, key: K, value: nat) -> Map<K, nat> {
    if table.dom().contains(key) || value != 0 {
        table.insert(key, value)
    } else {
        table
    }
}

/// The sum of all entries of a finite table.
pub open spec fn total<K>(table: Map<K, nat>) -> nat
    decreases table.dom().len(),
    when table.dom().finite()
{
    if table.dom().is_empty() {
        0
    } else {
        let key = table.dom().choose();
        table[key] + total(table.remove(key))
    }
}

/// After a write the key holds the value written and every other key holds
/// what it held before.
pub proof fn lemma_written_amounts<K>(table: Map<K, nat>, key: K, value: nat)
    ensures
        amount_at(written(table, key, value), key) == value,
        forall|other: K| other != key ==> amount_at(written(table, key, value), other) == amount_at(table, other),
        table.dom().finite() ==> written(table, key, value).dom().finite(),
        table.dom().subset_of(written(table, key, value).dom()),
{
}

/// The sum of a table with no entries is 0.
pub proof fn lemma_total_empty<K>()
    ensures
        total(Map::<K, nat>::empty()) == 0,
{
}

/// The sum of a table is what one of its keys holds plus the sum of the
/// table without that key.
pub proof fn lemma_total_remove<K>(table: Map<K, nat>, key: K)
    requires
        table.dom().finite(),
        table.dom().contains(key),
    ensures
        total(table) == table[key] + total(table.remove(key)),
    decreases table.dom().len(),
{
    let first = table.dom().choose();
    if first != key {
        let without_first = table.remove(first);
        let without_key = table.remove(key);
        lemma_total_remove(without_first, key);
        lemma_total_remove(without_key, first);
        assert(without_first.remove(key) =~= without_key.remove(first));
    }
}

/// No key holds more than the sum of the whole table.
pub proof fn lemma_total_bounds_each<K>(table: Map<K, nat>, key: K)
    requires
        table.dom().finite(),
    ensures
        amount_at(table, key) <= total(table),
{
    if table.dom().contains(key) {
        lemma_total_remove(table, key);
    }
}

/// Two distinct keys together hold no more than the sum of the whole table.
pub proof fn lemma_total_bounds_pair<K>(table: Map<K, nat>, first: K, second: K)
    requires
        table.dom().finite(),
        first != second,
    ensures
        amount_at(table, first) + amount_at(table, second) <= total(table),
{
    if table.dom().contains(first) {
        lemma_total_remove(table, first);
        lemma_total_bounds_each(table.remove(first), second);
    } else {
        lemma_total_bounds_each(table, second);
    }
}

/// A write changes the sum by the difference between the value written and
/// what the key held before.
pub proof fn lemma_total_written<K>(table: Map<K, nat>, key: K, value: nat)
    requires
        table.dom().finite(),
    ensures
        total(written(table, key, value)) + amount_at(table, key) == total(table) + value,
{
    let after = written(table, key, value);
    if table.dom().contains(key) {
        lemma_total_remove(table, key);
        lemma_total_remove(after, key);
        assert(after.remove(key) =~= table.remove(key));
    } else if value != 0 {
        lemma_total_remove(after, key);
        assert(after.remove(key) =~= table);
    }
}

} // verus!
