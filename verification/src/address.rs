//! Addresses: who can hold tokens and who can be allowed to spend them.

use core::cmp::Ordering;
use vstd::prelude::*;
use vstd::std_specs::cmp::{PartialEqSpecImpl, PartialOrdSpecImpl};

verus! {

/// The holder of a balance: an account, or another contract, each named by a
/// hash of 32 bytes. Two addresses are equal when tag and hash are equal; an
/// account comes before a contract, and within one tag the hashes are
/// compared byte by byte.
#[derive(Clone, Copy, Debug, Eq, Ord, Hash)]
pub enum Address {
    /// An account, by the hash of its key.
    Account([u8; 32]),
    /// A contract, by the hash of its package.
    Contract([u8; 32]),
}

/// Whether hash `a` comes before hash `b`: in the first byte in which the
/// two differ, `a` holds the smaller one.
pub open spec fn hash_precedes(a: [u8; 32], b: [u8; 32]) -> bool {
    exists|i: int|
        0 <= i < 32 && #[trigger] a[i] < b[i] && (forall|j: int| 0 <= j < i ==> a[j] == b[j])
}

/// Whether two hashes hold the same bytes.
fn same_hash(a: &[u8; 32], b: &[u8; 32]) -> (r: bool)
    ensures
        r == (*a == *b),
{
    let mut i: usize = 0;
    while i < 32
        invariant
            i <= 32,
            forall|j: int| 0 <= j < i ==> a[j] == b[j],
        decreases 32 - i,
    {
        if a[i] != b[i] {
            return false;
        }
        i += 1;
    }
    assert(*a =~= *b);
    true
}

/// Whether hash `a` comes before hash `b`.
fn hash_before(a: &[u8; 32], b: &[u8; 32]) -> (r: bool)
    ensures
        r == hash_precedes(*a, *b),
{
    let mut i: usize = 0;
    while i < 32
        invariant
            i <= 32,
            forall|j: int| 0 <= j < i ==> a[j] == b[j],
        decreases 32 - i,
    {
        if a[i] != b[i] {
            return a[i] < b[i];
        }
        i += 1;
    }
    false
}

/// Two hashes that differ differ in a first byte.
proof fn lemma_first_difference(a: [u8; 32], b: [u8; 32], n: int) -> (i: int)
    requires
        0 <= n <= 32,
        exists|k: int| 0 <= k < n && a[k] != b[k],
    ensures
        0 <= i < n,
        a[i] != b[i],
        forall|j: int| 0 <= j < i ==> a[j] == b[j],
    decreases n,
{
    if exists|k: int| 0 <= k < n - 1 && a[k] != b[k] {
        lemma_first_difference(a, b, n - 1)
    } else {
        n - 1
    }
}

impl Address {
    /// Whether this address comes before `other`: an account before a
    /// contract, and within one tag the smaller hash first.
    pub open spec fn spec_precedes(self, other: Address) -> bool {
        match (self, other) {
            (Address::Account(a), Address::Account(b)) => hash_precedes(a, b),
            (Address::Account(_), Address::Contract(_)) => true,
            (Address::Contract(_), Address::Account(_)) => false,
            (Address::Contract(a), Address::Contract(b)) => hash_precedes(a, b),
        }
    }

    /// Whether this address comes before `other`.
    pub fn precedes(&self, other: &Address) -> (r: bool)
        ensures
            r == self.spec_precedes(*other),
    {
        match (self, other) {
            (Address::Account(a), Address::Account(b)) => hash_before(a, b),
            (Address::Account(_), Address::Contract(_)) => true,
            (Address::Contract(_), Address::Account(_)) => false,
            (Address::Contract(a), Address::Contract(b)) => hash_before(a, b),
        }
    }

    /// No address comes before itself, and of two addresses at most one
    /// comes before the other.
    pub proof fn lemma_order_is_strict(self, other: Address)
        ensures
            !self.spec_precedes(self),
            self.spec_precedes(other) ==> !other.spec_precedes(self),
    {
    }

    /// Of two different addresses one comes before the other.
    pub proof fn lemma_order_is_total(self, other: Address)
        ensures
            self != other ==> self.spec_precedes(other) || other.spec_precedes(self),
    {
        match (self, other) {
            (Address::Account(a), Address::Account(b)) => {
                if a != b {
                    assert(!(a =~= b));
                    let i = lemma_first_difference(a, b, 32);
                    assert(a[i] < b[i] || b[i] < a[i]);
                }
            },
            (Address::Contract(a), Address::Contract(b)) => {
                if a != b {
                    assert(!(a =~= b));
                    let i = lemma_first_difference(a, b, 32);
                    assert(a[i] < b[i] || b[i] < a[i]);
                }
            },
            _ => {},
        }
    }

    /// An address that comes before a second, which comes before a third,
    /// comes before the third.
    pub proof fn lemma_order_is_transitive(self, second: Address, third: Address)
        requires
            self.spec_precedes(second),
            second.spec_precedes(third),
        ensures
            self.spec_precedes(third),
    {
        match (self, second, third) {
            (Address::Account(a), Address::Account(b), Address::Account(c)) => {
                lemma_hash_order_is_transitive(a, b, c);
            },
            (Address::Contract(a), Address::Contract(b), Address::Contract(c)) => {
                lemma_hash_order_is_transitive(a, b, c);
            },
            _ => {},
        }
    }
}

/// A hash that comes before a second, which comes before a third, comes
/// before the third.
proof fn lemma_hash_order_is_transitive(a: [u8; 32], b: [u8; 32], c: [u8; 32])
    requires
        hash_precedes(a, b),
        hash_precedes(b, c),
    ensures
        hash_precedes(a, c),
{
    let i = choose|i: int|
        0 <= i < 32 && #[trigger] a[i] < b[i] && (forall|j: int| 0 <= j < i ==> a[j] == b[j]);
    let k = choose|k: int|
        0 <= k < 32 && #[trigger] b[k] < c[k] && (forall|j: int| 0 <= j < k ==> b[j] == c[j]);
    let m = if i <= k {
        i
    } else {
        k
    };
    assert(a[m] < c[m]);
    assert(forall|j: int| 0 <= j < m ==> a[j] == c[j]);
}

impl PartialEq for Address {
    fn eq(&self, other: &Address) -> (r: bool) {
        match (self, other) {
            (Address::Account(a), Address::Account(b)) => same_hash(a, b),
            (Address::Contract(a), Address::Contract(b)) => same_hash(a, b),
            _ => false,
        }
    }
}

impl PartialEqSpecImpl for Address {
    open spec fn obeys_eq_spec() -> bool {
        true
    }

    open spec fn eq_spec(&self, other: &Address) -> bool {
        *self == *other
    }
}

impl PartialOrd for Address {
    fn partial_cmp(&self, other: &Address) -> (r: Option<Ordering>) {
        if *self == *other {
            Some(Ordering::Equal)
        } else if self.precedes(other) {
            Some(Ordering::Less)
        } else {
            Some(Ordering::Greater)
        }
    }
}

impl PartialOrdSpecImpl for Address {
    open spec fn obeys_partial_cmp_spec() -> bool {
        true
    }

    open spec fn partial_cmp_spec(&self, other: &Address) -> Option<Ordering> {
        if *self == *other {
            Some(Ordering::Equal)
        } else if self.spec_precedes(*other) {
            Some(Ordering::Less)
        } else {
            Some(Ordering::Greater)
        }
    }
}

} // verus!
