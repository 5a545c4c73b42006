//! The ledger's numeric type: an unsigned integer of 256 bits whose
//! arithmetic reports overflow and underflow instead of wrapping.

use casper_types::bytesrepr;
use casper_types::U256;
use vstd::prelude::*;

verus! {

/// The weight of the second word of an amount: 2^64.
pub open spec fn word_base() -> nat {
    0x1_0000_0000_0000_0000nat
}

/// The first value that no amount can hold: 2^256.
pub open spec fn amount_limit() -> nat {
    0x1_0000_0000_0000_0000_0000_0000_0000_0000_0000_0000_0000_0000_0000_0000_0000_0000nat
}

/// The number that four words stand for, the least significant word first.
pub open spec fn words_value(w0: u64, w1: u64, w2: u64, w3: u64) -> nat {
    (w0 + word_base() * (w1 + word_base() * (w2 + word_base() * w3))) as nat
}

/// The number that bytes stand for, the least significant byte first.
pub open spec fn little_endian(bytes: Seq<u8>) -> nat
    decreases bytes.len(),
{
    if bytes.len() == 0 {
        0
    } else {
        bytes[0] as nat + 256 * little_endian(bytes.skip(1))
    }
}

/// The number that the bytes of an encoded amount stand for: the first byte
/// counts the bytes that follow, at most 32, and these hold the number, the
/// least significant byte first. `None` where the bytes are no such code.
pub open spec fn encoded_amount(bytes: Seq<u8>) -> Option<nat> {
    if bytes.len() >= 1 && bytes[0] <= 32 && bytes.len() == 1 + bytes[0] {
        Some(little_endian(bytes.skip(1)))
    } else {
        None
    }
}

/// The first number that `count` bytes cannot hold: 256 to the power of
/// `count`.
pub open spec fn byte_limit(count: nat) -> nat
    decreases count,
{
    if count == 0 {
        1
    } else {
        256 * byte_limit((count - 1) as nat)
    }
}

/// Bytes stand for a number below 256 to the power of their count.
pub proof fn lemma_little_endian_bounded(bytes: Seq<u8>)
    ensures
        little_endian(bytes) < byte_limit(bytes.len()),
    decreases bytes.len(),
{
    if bytes.len() > 0 {
        lemma_little_endian_bounded(bytes.skip(1));
    }
}

/// More bytes can hold larger numbers.
proof fn lemma_byte_limit_grows(low: nat, high: nat)
    requires
        low <= high,
    ensures
        byte_limit(low) <= byte_limit(high),
    decreases high,
{
    if low < high {
        lemma_byte_limit_grows(low, (high - 1) as nat);
    }
}

/// Every encoded amount is below 2^256.
pub proof fn lemma_encoded_amount_fits(bytes: Seq<u8>)
    requires
        encoded_amount(bytes) is Some,
    ensures
        encoded_amount(bytes)->0 < amount_limit(),
{
    lemma_little_endian_bounded(bytes.skip(1));
    lemma_byte_limit_grows((bytes.len() - 1) as nat, 32);
    assert(byte_limit(32) == amount_limit()) by {
        reveal_with_fuel(byte_limit, 33);
    }
}

/// An amount of tokens: a number from 0 to 2^256 - 1, held as four words of
/// 64 bits, the least significant first.
#[derive(Clone, Copy, Debug, PartialEq, Eq, Structural)]
pub struct Amount {
    w0: u64,
    w1: u64,
    w2: u64,
    w3: u64,
}

impl View for Amount {
    type V = nat;

    /// The number that the amount stands for.
    closed spec fn view(&self) -> nat {
        words_value(self.w0, self.w1, self.w2, self.w3)
    }
}

/// `casper_types::U256::checked_add`, on the words of two amounts. The words
/// of a `U256` are little-endian; the call adds the two numbers and returns
/// `None` exactly when the sum does not fit in 256 bits.
#[verifier::external_body]
fn u256_checked_add(a: Amount, b: Amount) -> (r: Option<Amount>)
    ensures
        r is Some <==> a@ + b@ < amount_limit(),
        r is Some ==> r->0@ == a@ + b@,
{
    match U256([a.w0, a.w1, a.w2, a.w3]).checked_add(U256([b.w0, b.w1, b.w2, b.w3])) {
        Some(U256(w)) => Some(Amount { w0: w[0], w1: w[1], w2: w[2], w3: w[3] }),
        None => None,
    }
}

/// `casper_types::U256::checked_sub`, on the words of two amounts. The call
/// subtracts the second number from the first and returns `None` exactly
/// when the second is the larger.
#[verifier::external_body]
fn u256_checked_sub(a: Amount, b: Amount) -> (r: Option<Amount>)
    ensures
        r is Some <==> b@ <= a@,
        r is Some ==> r->0@ == a@ - b@,
{
    match U256([a.w0, a.w1, a.w2, a.w3]).checked_sub(U256([b.w0, b.w1, b.w2, b.w3])) {
        Some(U256(w)) => Some(Amount { w0: w[0], w1: w[1], w2: w[2], w3: w[3] }),
        None => None,
    }
}

/// `casper_types::bytesrepr::deserialize` at `casper_types::U256`. The call
/// reads one byte that counts the bytes of the number, refuses a count above
/// 32, reads that many bytes as a little-endian number, and refuses bytes
/// that end too early or go on after the number.
#[verifier::external_body]
pub(crate) fn u256_from_bytes(bytes: Vec<u8>) -> (r: Option<Amount>)
    ensures
        r is Some <==> encoded_amount(bytes@) is Some,
        r is Some ==> Some(r->0@) == encoded_amount(bytes@),
{
    match bytesrepr::deserialize::<U256>(bytes) {
        Ok(U256(w)) => Some(Amount { w0: w[0], w1: w[1], w2: w[2], w3: w[3] }),
        Err(_) => None,
    }
}

impl Amount {
    /// Every amount is below 2^256.
    pub proof fn lemma_bounded(self)
        ensures
            self@ < amount_limit(),
    {
    }

    /// Two amounts that stand for the same number are the same amount.
    pub proof fn lemma_view_injective(self, other: Amount)
        ensures
            self@ == other@ <==> self == other,
    {
    }

    /// The amount 0.
    pub fn zero() -> (r: Amount)
        ensures
            r@ == 0,
    {
        Amount { w0: 0, w1: 0, w2: 0, w3: 0 }
    }

    /// The largest amount, 2^256 - 1.
    pub fn max_value() -> (r: Amount)
        ensures
            r@ == amount_limit() - 1,
    {
        let r = Amount { w0: u64::MAX, w1: u64::MAX, w2: u64::MAX, w3: u64::MAX };
        proof {
            let b = word_base();
            let m: nat = 0xffff_ffff_ffff_ffffnat;
            let t2: nat = m + b * m;
            let t1: nat = m + b * t2;
            assert(t2 == 0xffff_ffff_ffff_ffff_ffff_ffff_ffff_ffffnat);
            assert(t1 == 0xffff_ffff_ffff_ffff_ffff_ffff_ffff_ffff_ffff_ffff_ffff_ffffnat);
            assert(m + b * t1 == amount_limit() - 1);
        }
        r
    }

    /// The amount that stands for `value`.
    pub fn from_u64(value: u64) -> (r: Amount)
        ensures
            r@ == value,
    {
        Amount { w0: value, w1: 0, w2: 0, w3: 0 }
    }

    /// The amount that four words stand for, the least significant first.
    pub fn from_words(words: [u64; 4]) -> (r: Amount)
        ensures
            r@ == words_value(words[0], words[1], words[2], words[3]),
    {
        Amount { w0: words[0], w1: words[1], w2: words[2], w3: words[3] }
    }

    /// The four words of the amount, the least significant first.
    pub fn to_words(&self) -> (words: [u64; 4])
        ensures
            words_value(words[0], words[1], words[2], words[3]) == self@,
    {
        [self.w0, self.w1, self.w2, self.w3]
    }

    /// Whether the amount is 0.
    pub fn is_zero(&self) -> (r: bool)
        ensures
            r == (self@ == 0),
    {
        self.w0 == 0 && self.w1 == 0 && self.w2 == 0 && self.w3 == 0
    }

    /// The sum of two amounts, or `None` where it would not fit in 256 bits.
    pub fn checked_add(&self, other: &Amount) -> (r: Option<Amount>)
        ensures
            r is Some <==> self@ + other@ < amount_limit(),
            r is Some ==> r->0@ == self@ + other@,
    {
        u256_checked_add(*self, *other)
    }

    /// The difference of two amounts, or `None` where `other` is the larger.
    pub fn checked_sub(&self, other: &Amount) -> (r: Option<Amount>)
        ensures
            r is Some <==> other@ <= self@,
            r is Some ==> r->0@ == self@ - other@,
    {
        u256_checked_sub(*self, *other)
    }
}

} // verus!
