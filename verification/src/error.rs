//! The errors of the token, each with the numeric code under which the host
//! reports it.

use casper_types::ApiError;
use vstd::prelude::*;

verus! {

/// The named arguments that the operations of the token take.
#[derive(Clone, Copy, Debug, PartialEq, Eq, Structural)]
pub enum ArgName {
    /// The address whose balance is asked for.
    Address,
    /// The owner of a balance.
    Owner,
    /// The address that an owner allows to spend.
    Spender,
    /// The address that receives tokens.
    Recipient,
    /// An amount of tokens.
    Amount,
    /// The name of the token.
    Name,
    /// The symbol of the token.
    Symbol,
    /// The number of decimals of the token.
    Decimals,
    /// The supply that the token starts with.
    TotalSupply,
}

impl ArgName {
    /// The place of the argument in the list of arguments, from 0.
    pub open spec fn index(self) -> nat {
        match self {
            ArgName::Address => 0,
            ArgName::Owner => 1,
            ArgName::Spender => 2,
            ArgName::Recipient => 3,
            ArgName::Amount => 4,
            ArgName::Name => 5,
            ArgName::Symbol => 6,
            ArgName::Decimals => 7,
            ArgName::TotalSupply => 8,
        }
    }

    /// The name under which a call carries the argument.
    pub open spec fn spec_key(self) -> Seq<char> {
        match self {
            ArgName::Address => "address"@,
            ArgName::Owner => "owner"@,
            ArgName::Spender => "spender"@,
            ArgName::Recipient => "recipient"@,
            ArgName::Amount => "amount"@,
            ArgName::Name => "name"@,
            ArgName::Symbol => "symbol"@,
            ArgName::Decimals => "decimals"@,
            ArgName::TotalSupply => "total_supply"@,
        }
    }

    /// The name under which a call carries the argument.
    pub fn key(&self) -> (r: &'static str)
        ensures
            r@ == self.spec_key(),
    {
        match self {
            ArgName::Address => "address",
            ArgName::Owner => "owner",
            ArgName::Spender => "spender",
            ArgName::Recipient => "recipient",
            ArgName::Amount => "amount",
            ArgName::Name => "name",
            ArgName::Symbol => "symbol",
            ArgName::Decimals => "decimals",
            ArgName::TotalSupply => "total_supply",
        }
    }

    /// The place of the argument in the list of arguments, from 0.
    pub fn ordinal(&self) -> (r: u16)
        ensures
            r == self.index(),
    {
        match self {
            ArgName::Address => 0,
            ArgName::Owner => 1,
            ArgName::Spender => 2,
            ArgName::Recipient => 3,
            ArgName::Amount => 4,
            ArgName::Name => 5,
            ArgName::Symbol => 6,
            ArgName::Decimals => 7,
            ArgName::TotalSupply => 8,
        }
    }
}

/// Why an operation of the token failed. Every failure ends the invocation
/// and leaves the ledger as it was.
#[derive(Clone, Copy, Debug, PartialEq, Eq, Structural)]
pub enum ErrorERC20 {
    /// The balance that was to be debited holds less than the amount.
    InsufficientBalance,
    /// The spender is allowed less than the amount.
    InsufficientAllowance,
    /// An amount would have left the range of 256 bits.
    Overflow,
    /// The call did not carry the named argument.
    MissingArgument(ArgName),
    /// The call carried the named argument in a shape that cannot be read.
    InvalidArgument(ArgName),
    /// Minting failed.
    FailCallToMint,
    /// Burning failed though the owner holds the amount.
    FailCallToBurn,
    /// The caller may neither mint nor burn.
    Unauthorized,
}

/// The first code that the host reports for an error of a contract's own.
pub open spec fn user_code_base() -> nat {
    65536
}

/// `u32::from` of `casper_types::ApiError::User(user_code)`: the host adds
/// `u16::MAX + 1` to the code that a contract gives to an error of its own.
#[verifier::external_body]
fn host_code(user_code: u16) -> (r: u32)
    ensures
        r == user_code_base() + user_code,
{
    u32::from(ApiError::User(user_code))
}

impl ErrorERC20 {
    /// The code of the error among the errors of this contract.
    pub open spec fn spec_user_code(self) -> nat {
        match self {
            ErrorERC20::MissingArgument(which) => 1 + which.index(),
            ErrorERC20::InvalidArgument(which) => 11 + which.index(),
            ErrorERC20::FailCallToMint => 21,
            ErrorERC20::FailCallToBurn => 22,
            ErrorERC20::Unauthorized => 23,
            ErrorERC20::Overflow => 65532,
            ErrorERC20::InsufficientAllowance => 65533,
            ErrorERC20::InsufficientBalance => 65534,
        }
    }

    /// The code under which the host reports the error.
    pub open spec fn spec_code(self) -> nat {
        user_code_base() + self.spec_user_code()
    }

    /// The code of the error among the errors of this contract.
    pub fn user_code(&self) -> (r: u16)
        ensures
            r == self.spec_user_code(),
    {
        match self {
            ErrorERC20::MissingArgument(which) => 1 + which.ordinal(),
            ErrorERC20::InvalidArgument(which) => 11 + which.ordinal(),
            ErrorERC20::FailCallToMint => 21,
            ErrorERC20::FailCallToBurn => 22,
            ErrorERC20::Unauthorized => 23,
            ErrorERC20::Overflow => 65532,
            ErrorERC20::InsufficientAllowance => 65533,
            ErrorERC20::InsufficientBalance => 65534,
        }
    }

    /// The code under which the host reports the error.
    pub fn code(&self) -> (r: u32)
        ensures
            r == self.spec_code(),
    {
        host_code(self.user_code())
    }

    /// No two errors share a code.
    pub proof fn lemma_codes_distinct(self, other: ErrorERC20)
        ensures
            self.spec_code() == other.spec_code() <==> self == other,
    {
    }
}

/// What the host found when it decoded one named argument of a call.
#[derive(Debug, PartialEq, Eq)]
pub enum Argument<T> {
    /// The call did not carry the argument.
    Missing,
    /// The call carried the argument, but not as a value of the type asked for.
    Invalid,
    /// The call carried this value.
    Value(T),
}

impl<T> Argument<T> {
    /// The argument that was found and decoded: its value, or an invalid
    /// argument where the decoding gave none.
    pub open spec fn spec_decoded(decoded: Option<T>) -> Argument<T> {
        match decoded {
            Some(value) => Argument::Value(value),
            None => Argument::Invalid,
        }
    }

    /// The argument that was found and decoded: its value, or an invalid
    /// argument where the decoding gave none.
    pub fn decoded(decoded: Option<T>) -> (r: Argument<T>)
        ensures
            r == Argument::spec_decoded(decoded),
    {
        match decoded {
            Some(value) => Argument::Value(value),
            None => Argument::Invalid,
        }
    }

    /// What demanding the argument gives: its value, or the error that says
    /// what is wrong with the argument named `which`.
    pub open spec fn spec_required(self, which: ArgName) -> Result<T, ErrorERC20> {
        match self {
            Argument::Missing => Err(ErrorERC20::MissingArgument(which)),
            Argument::Invalid => Err(ErrorERC20::InvalidArgument(which)),
            Argument::Value(value) => Ok(value),
        }
    }

    /// The value of the argument named `which`, or the error that says
    /// whether it was missing or could not be read.
    pub fn required(self, which: ArgName) -> (r: Result<T, ErrorERC20>)
        ensures
            r == self.spec_required(which),
    {
        match self {
            Argument::Missing => Err(ErrorERC20::MissingArgument(which)),
            Argument::Invalid => Err(ErrorERC20::InvalidArgument(which)),
            Argument::Value(value) => Ok(value),
        }
    }
}

} // verus!
