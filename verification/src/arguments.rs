//! The arguments of a call, decoded from the bytes in which the host
//! carries them.

use crate::address::Address;
use crate::amount::{
    amount_limit, encoded_amount, lemma_encoded_amount_fits, little_endian, u256_from_bytes, Amount,
};
use crate::error::Argument;
use casper_types::bytesrepr;
use casper_types::Key;
use vstd::prelude::*;

verus! {

/// The tag byte of a key that names an account.
pub open spec fn account_tag() -> u8 {
    0
}

/// The tag byte of a key that names a contract.
pub open spec fn contract_tag() -> u8 {
    1
}

/// Whether the bytes are an encoded address: a tag byte for an account or
/// for a contract, then the 32 bytes of the hash.
pub open spec fn encodes_address(bytes: Seq<u8>) -> bool {
    bytes.len() == 33 && (bytes[0] == account_tag() || bytes[0] == contract_tag())
}

/// Whether the bytes are the code of this address.
pub open spec fn address_encoding(bytes: Seq<u8>, address: Address) -> bool {
    &&& bytes.len() == 33
    &&& match address {
        Address::Account(hash) => bytes[0] == account_tag() && hash@ == bytes.skip(1),
        Address::Contract(hash) => bytes[0] == contract_tag() && hash@ == bytes.skip(1),
    }
}

/// The text that the bytes of an encoded string stand for: four bytes that
/// count, the least significant byte first, the bytes that follow, and
/// these hold the text in UTF-8. `None` where the bytes are no such code.
pub open spec fn encoded_text(bytes: Seq<u8>) -> Option<Seq<char>> {
    if bytes.len() >= 4 && bytes.len() == 4 + little_endian(bytes.take(4))
        && vstd::utf8::valid_utf8(bytes.skip(4)) {
        Some(vstd::utf8::decode_utf8(bytes.skip(4)))
    } else {
        None
    }
}

/// What the bytes of a key turned out to name.
enum KeyKind {
    /// An account, with its hash.
    Account([u8; 32]),
    /// A contract, with its hash.
    Hash([u8; 32]),
    /// Something that holds no tokens.
    Other,
}

/// `casper_types::bytesrepr::deserialize` at `casper_types::Key`. The call
/// reads the tag byte and then what the tag asks for: for an account (tag 0)
/// and for a hash (tag 1) the 32 bytes of the hash. It refuses bytes that
/// end too early or go on after the key.
#[verifier::external_body]
fn key_from_bytes(bytes: Vec<u8>) -> (r: Option<KeyKind>)
    ensures
        match r {
            Some(KeyKind::Account(hash)) => address_encoding(bytes@, Address::Account(hash)),
            Some(KeyKind::Hash(hash)) => address_encoding(bytes@, Address::Contract(hash)),
            Some(KeyKind::Other) => !encodes_address(bytes@),
            None => !encodes_address(bytes@),
        },
{
    match bytesrepr::deserialize::<Key>(bytes) {
        Ok(Key::Account(hash)) => Some(KeyKind::Account(hash.value())),
        Ok(Key::Hash(hash)) => Some(KeyKind::Hash(hash)),
        Ok(_) => Some(KeyKind::Other),
        Err(_) => None,
    }
}

/// `casper_types::bytesrepr::deserialize` at `u8`: the call returns the one
/// byte, and refuses no bytes and more than one.
#[verifier::external_body]
fn u8_from_bytes(bytes: Vec<u8>) -> (r: Option<u8>)
    ensures
        r is Some <==> bytes@.len() == 1,
        r is Some ==> r->0 == bytes@[0],
{
    match bytesrepr::deserialize::<u8>(bytes) {
        Ok(value) => Some(value),
        Err(_) => None,
    }
}

/// `casper_types::bytesrepr::deserialize` at `String`. The call reads four
/// bytes as a little-endian count, takes that many bytes and hands them to
/// `String::from_utf8`, which accepts valid UTF-8 only. It refuses bytes
/// that end too early or go on after the text.
#[verifier::external_body]
fn string_from_bytes(bytes: Vec<u8>) -> (r: Option<String>)
    ensures
        r is Some <==> encoded_text(bytes@) is Some,
        r is Some ==> Some(r->0@) == encoded_text(bytes@),
{
    match bytesrepr::deserialize::<String>(bytes) {
        Ok(value) => Some(value),
        Err(_) => None,
    }
}

/// An address, from what the host found under the argument's name: nothing,
/// or the bytes of the argument. Bytes that encode no account and no
/// contract make the argument invalid.
pub fn address_argument(raw: Option<Vec<u8>>) -> (r: Argument<Address>)
    ensures
        match raw {
            None => r is Missing,
            Some(bytes) => if encodes_address(bytes@) {
                r is Value && address_encoding(bytes@, r->Value_0)
            } else {
                r is Invalid
            },
        },
{
    match raw {
        None => Argument::Missing,
        Some(bytes) => match key_from_bytes(bytes) {
            Some(KeyKind::Account(hash)) => Argument::Value(Address::Account(hash)),
            Some(KeyKind::Hash(hash)) => Argument::Value(Address::Contract(hash)),
            Some(KeyKind::Other) => Argument::Invalid,
            None => Argument::Invalid,
        },
    }
}

/// An amount, from what the host found under the argument's name: nothing,
/// or the bytes of the argument.
pub fn amount_argument(raw: Option<Vec<u8>>) -> (r: Argument<Amount>)
    ensures
        match raw {
            None => r is Missing,
            Some(bytes) => match encoded_amount(bytes@) {
                Some(value) => r is Value && r->Value_0@ == value && value < amount_limit(),
                None => r is Invalid,
            },
        },
{
    match raw {
        None => Argument::Missing,
        Some(bytes) => {
            proof {
                if encoded_amount(bytes@) is Some {
                    lemma_encoded_amount_fits(bytes@);
                }
            }
            Argument::decoded(u256_from_bytes(bytes))
        },
    }
}

/// A number of decimals, from what the host found under the argument's
/// name: nothing, or the bytes of the argument, which must be one byte.
pub fn decimals_argument(raw: Option<Vec<u8>>) -> (r: Argument<u8>)
    ensures
        match raw {
            None => r is Missing,
            Some(bytes) => if bytes@.len() == 1 {
                r is Value && r->Value_0 == bytes@[0]
            } else {
                r is Invalid
            },
        },
{
    match raw {
        None => Argument::Missing,
        Some(bytes) => Argument::decoded(u8_from_bytes(bytes)),
    }
}

/// A text, from what the host found under the argument's name: nothing, or
/// the bytes of the argument.
pub fn text_argument(raw: Option<Vec<u8>>) -> (r: Argument<String>)
    ensures
        match raw {
            None => r is Missing,
            Some(bytes) => match encoded_text(bytes@) {
                Some(text) => r is Value && r->Value_0@ == text,
                None => r is Invalid,
            },
        },
{
    match raw {
        None => Argument::Missing,
        Some(bytes) => Argument::decoded(string_from_bytes(bytes)),
    }
}

} // verus!
