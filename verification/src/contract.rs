//! The operations that the token offers to its host, one function each. The
//! host decodes the arguments of a call and names the caller; each function
//! here says what the call returns, or the error with which it ends, and
//! what it does to the ledger.

use crate::address::Address;
use crate::amount::Amount;
use crate::error::{ArgName, Argument, ErrorERC20};
use crate::state::LedgerState;
use crate::token::Token;
use vstd::prelude::*;

verus! {

/// What a failed mint is reported as.
pub open spec fn mint_report(outcome: Result<(), ErrorERC20>) -> Result<(), ErrorERC20> {
    match outcome {
        Ok(()) => Ok(()),
        Err(_) => Err(ErrorERC20::FailCallToMint),
    }
}

/// What a failed burn is reported as: a balance that does not cover the
/// amount under its own name, any other refusal as a failed burn.
pub open spec fn burn_report(outcome: Result<(), ErrorERC20>) -> Result<(), ErrorERC20> {
    match outcome {
        Ok(()) => Ok(()),
        Err(ErrorERC20::InsufficientBalance) => Err(ErrorERC20::InsufficientBalance),
        Err(_) => Err(ErrorERC20::FailCallToBurn),
    }
}

/// Installs the token from the arguments `name`, `symbol`, `decimals` and
/// `total_supply`, read in this order: the first that is missing or cannot
/// be read ends the call. The whole supply goes to `installer`.
pub fn install(
    installer: Address,
    name: Argument<String>,
    symbol: Argument<String>,
    decimals: Argument<u8>,
    total_supply: Argument<Amount>,
) -> (r: Result<Token, ErrorERC20>)
    ensures
        match (
            name.spec_required(ArgName::Name),
            symbol.spec_required(ArgName::Symbol),
            decimals.spec_required(ArgName::Decimals),
            total_supply.spec_required(ArgName::TotalSupply),
        ) {
            (Ok(name), Ok(symbol), Ok(decimals), Ok(supply)) => r is Ok && r->Ok_0@
                == LedgerState::installed(installer, name@, symbol@, decimals, supply@)
                && r->Ok_0@.supply_conserved(),
            (Err(error), _, _, _) => r is Err && r->Err_0 == error,
            (Ok(_), Err(error), _, _) => r is Err && r->Err_0 == error,
            (Ok(_), Ok(_), Err(error), _) => r is Err && r->Err_0 == error,
            (Ok(_), Ok(_), Ok(_), Err(error)) => r is Err && r->Err_0 == error,
        },
{
    let name = match name.required(ArgName::Name) {
        Ok(value) => value,
        Err(error) => { return Err(error); },
    };
    let symbol = match symbol.required(ArgName::Symbol) {
        Ok(value) => value,
        Err(error) => { return Err(error); },
    };
    let decimals = match decimals.required(ArgName::Decimals) {
        Ok(value) => value,
        Err(error) => { return Err(error); },
    };
    let supply = match total_supply.required(ArgName::TotalSupply) {
        Ok(value) => value,
        Err(error) => { return Err(error); },
    };
    Ok(Token::install(installer, name, symbol, decimals, supply))
}

/// The name of the token.
pub fn name(token: &Token) -> (r: String)
    ensures
        r@ == token@.name,
{
    token.name()
}

/// The symbol of the token.
pub fn symbol(token: &Token) -> (r: String)
    ensures
        r@ == token@.symbol,
{
    token.symbol()
}

/// The number of decimals of the token.
pub fn decimals(token: &Token) -> (r: u8)
    ensures
        r == token@.decimals,
{
    token.decimals()
}

/// The number of tokens that exist.
pub fn total_supply(token: &Token) -> (r: Amount)
    ensures
        r@ == token@.total_supply,
{
    token.total_supply()
}

/// What the address in the argument `address` holds.
pub fn balance_of(token: &Token, address: Argument<Address>) -> (r: Result<Amount, ErrorERC20>)
    ensures
        match address.spec_required(ArgName::Address) {
            Ok(address) => r is Ok && r->Ok_0@ == token@.balance_of(address),
            Err(error) => r == Err::<Amount, ErrorERC20>(error),
        },
{
    match address.required(ArgName::Address) {
        Ok(address) => Ok(token.balance_of(address)),
        Err(error) => Err(error),
    }
}

/// What the address in `owner` allows the address in `spender` to take.
/// `owner` is read first.
pub fn allowance(token: &Token, owner: Argument<Address>, spender: Argument<Address>) -> (r: Result<
    Amount,
    ErrorERC20,
>)
    ensures
        match (owner.spec_required(ArgName::Owner), spender.spec_required(ArgName::Spender)) {
            (Ok(owner), Ok(spender)) => r is Ok && r->Ok_0@ == token@.allowance(owner, spender),
            (Err(error), _) => r == Err::<Amount, ErrorERC20>(error),
            (Ok(_), Err(error)) => r == Err::<Amount, ErrorERC20>(error),
        },
{
    let owner = match owner.required(ArgName::Owner) {
        Ok(value) => value,
        Err(error) => { return Err(error); },
    };
    let spender = match spender.required(ArgName::Spender) {
        Ok(value) => value,
        Err(error) => { return Err(error); },
    };
    Ok(token.allowance(owner, spender))
}

/// Moves the amount in `amount` from `caller` to the address in
/// `recipient`. `recipient` is read first. An argument that is missing or
/// cannot be read ends the call before the ledger is looked at; after that
/// the call answers and acts as a transfer of the ledger does.
pub fn transfer(
    token: &mut Token,
    caller: Address,
    recipient: Argument<Address>,
    amount: Argument<Amount>,
) -> (r: Result<(), ErrorERC20>)
    ensures
        match (recipient.spec_required(ArgName::Recipient), amount.spec_required(ArgName::Amount)) {
            (Ok(recipient), Ok(amount)) => {
                &&& r == old(token)@.transfer_outcome(caller, recipient, amount@)
                &&& final(token)@ == old(token)@.after_transfer(caller, recipient, amount@)
            },
            (Err(error), _) => r == Err::<(), ErrorERC20>(error) && final(token)@ == old(token)@,
            (Ok(_), Err(error)) => r == Err::<(), ErrorERC20>(error) && final(token)@ == old(
                token,
            )@,
        },
        r is Err ==> final(token)@ == old(token)@,
        old(token)@.supply_conserved() ==> final(token)@.supply_conserved(),
{
    let recipient = match recipient.required(ArgName::Recipient) {
        Ok(value) => value,
        Err(error) => { return Err(error); },
    };
    let amount = match amount.required(ArgName::Amount) {
        Ok(value) => value,
        Err(error) => { return Err(error); },
    };
    token.transfer(caller, recipient, amount)
}

/// Allows the address in `spender` to take up to the amount in `amount`
/// from what `caller` holds. `spender` is read first. The amount replaces
/// what was allowed before.
pub fn approve(
    token: &mut Token,
    caller: Address,
    spender: Argument<Address>,
    amount: Argument<Amount>,
) -> (r: Result<(), ErrorERC20>)
    ensures
        match (spender.spec_required(ArgName::Spender), amount.spec_required(ArgName::Amount)) {
            (Ok(spender), Ok(amount)) => {
                &&& r is Ok
                &&& final(token)@ == old(token)@.after_approve(caller, spender, amount@)
                &&& final(token)@.allowance(caller, spender) == amount@
            },
            (Err(error), _) => r == Err::<(), ErrorERC20>(error) && final(token)@ == old(token)@,
            (Ok(_), Err(error)) => r == Err::<(), ErrorERC20>(error) && final(token)@ == old(
                token,
            )@,
        },
        final(token)@.balances == old(token)@.balances,
        final(token)@.total_supply == old(token)@.total_supply,
{
    let spender = match spender.required(ArgName::Spender) {
        Ok(value) => value,
        Err(error) => { return Err(error); },
    };
    let amount = match amount.required(ArgName::Amount) {
        Ok(value) => value,
        Err(error) => { return Err(error); },
    };
    token.approve(caller, spender, amount);
    Ok(())
}

/// Moves the amount in `amount` from the address in `owner` to the address
/// in `recipient`, on the allowance that the owner gave to `caller`. The
/// arguments are read in the order `owner`, `recipient`, `amount`. An
/// argument that is missing or cannot be read ends the call before the
/// ledger is looked at; after that the call answers and acts as a transfer
/// on an allowance does.
pub fn transfer_from(
    token: &mut Token,
    caller: Address,
    owner: Argument<Address>,
    recipient: Argument<Address>,
    amount: Argument<Amount>,
) -> (r: Result<(), ErrorERC20>)
    ensures
        match (
            owner.spec_required(ArgName::Owner),
            recipient.spec_required(ArgName::Recipient),
            amount.spec_required(ArgName::Amount),
        ) {
            (Ok(owner), Ok(recipient), Ok(amount)) => {
                &&& r == old(token)@.transfer_from_outcome(caller, owner, recipient, amount@)
                &&& final(token)@ == old(token)@.after_transfer_from(
                    caller,
                    owner,
                    recipient,
                    amount@,
                )
            },
            (Err(error), _, _) => r == Err::<(), ErrorERC20>(error),
            (Ok(_), Err(error), _) => r == Err::<(), ErrorERC20>(error),
            (Ok(_), Ok(_), Err(error)) => r == Err::<(), ErrorERC20>(error),
        },
        r is Err ==> final(token)@ == old(token)@,
        old(token)@.supply_conserved() ==> final(token)@.supply_conserved(),
{
    let owner = match owner.required(ArgName::Owner) {
        Ok(value) => value,
        Err(error) => { return Err(error); },
    };
    let recipient = match recipient.required(ArgName::Recipient) {
        Ok(value) => value,
        Err(error) => { return Err(error); },
    };
    let amount = match amount.required(ArgName::Amount) {
        Ok(value) => value,
        Err(error) => { return Err(error); },
    };
    token.transfer_from(caller, owner, recipient, amount)
}

/// Makes the amount in `amount` new tokens for the address in `owner`.
/// `owner` is read first. After the arguments, the call fails with
/// `Unauthorized` where `caller` may not mint, and with `FailCallToMint`
/// where the ledger refuses the mint. A failure changes nothing.
pub fn mint(
    token: &mut Token,
    caller: Address,
    owner: Argument<Address>,
    amount: Argument<Amount>,
) -> (r: Result<(), ErrorERC20>)
    ensures
        match (owner.spec_required(ArgName::Owner), amount.spec_required(ArgName::Amount)) {
            (Ok(owner), Ok(amount)) => if old(token)@.may_mint(caller) {
                &&& r == mint_report(old(token)@.mint_outcome(owner, amount@))
                &&& final(token)@ == old(token)@.after_mint(owner, amount@)
            } else {
                r == Err::<(), ErrorERC20>(ErrorERC20::Unauthorized)
            },
            (Err(error), _) => r == Err::<(), ErrorERC20>(error),
            (Ok(_), Err(error)) => r == Err::<(), ErrorERC20>(error),
        },
        r is Err ==> final(token)@ == old(token)@,
        old(token)@.supply_conserved() ==> final(token)@.supply_conserved(),
{
    let owner = match owner.required(ArgName::Owner) {
        Ok(value) => value,
        Err(error) => { return Err(error); },
    };
    let amount = match amount.required(ArgName::Amount) {
        Ok(value) => value,
        Err(error) => { return Err(error); },
    };
    match token.authorize(caller) {
        Ok(()) => {},
        Err(error) => { return Err(error); },
    }
    match token.mint(owner, amount) {
        Ok(()) => Ok(()),
        Err(_) => Err(ErrorERC20::FailCallToMint),
    }
}

/// Takes the amount in `amount` away from the address in `owner` and from
/// the supply. `owner` is read first. After the arguments, the call fails
/// with `Unauthorized` where `caller` may not burn, with
/// `InsufficientBalance` where the owner holds less than the amount, and
/// with `FailCallToBurn` where the owner holds the amount but the supply is
/// less. A failure changes nothing.
pub fn burn(
    token: &mut Token,
    caller: Address,
    owner: Argument<Address>,
    amount: Argument<Amount>,
) -> (r: Result<(), ErrorERC20>)
    ensures
        match (owner.spec_required(ArgName::Owner), amount.spec_required(ArgName::Amount)) {
            (Ok(owner), Ok(amount)) => if old(token)@.may_mint(caller) {
                &&& r == burn_report(old(token)@.burn_outcome(owner, amount@))
                &&& r == if old(token)@.balance_of(owner) < amount@ {
                    Err::<(), ErrorERC20>(ErrorERC20::InsufficientBalance)
                } else if old(token)@.total_supply < amount@ {
                    Err(ErrorERC20::FailCallToBurn)
                } else {
                    Ok(())
                }
                &&& final(token)@ == old(token)@.after_burn(owner, amount@)
            } else {
                r == Err::<(), ErrorERC20>(ErrorERC20::Unauthorized)
            },
            (Err(error), _) => r == Err::<(), ErrorERC20>(error),
            (Ok(_), Err(error)) => r == Err::<(), ErrorERC20>(error),
        },
        r is Err ==> final(token)@ == old(token)@,
        old(token)@.supply_conserved() ==> final(token)@.supply_conserved() && r != Err::<
            (),
            ErrorERC20,
        >(ErrorERC20::FailCallToBurn),
{
    let owner = match owner.required(ArgName::Owner) {
        Ok(value) => value,
        Err(error) => { return Err(error); },
    };
    let amount = match amount.required(ArgName::Amount) {
        Ok(value) => value,
        Err(error) => { return Err(error); },
    };
    match token.authorize(caller) {
        Ok(()) => {},
        Err(error) => { return Err(error); },
    }
    match token.burn(owner, amount) {
        Ok(()) => Ok(()),
        Err(ErrorERC20::InsufficientBalance) => Err(ErrorERC20::InsufficientBalance),
        Err(_) => Err(ErrorERC20::FailCallToBurn),
    }
}

} // verus!
