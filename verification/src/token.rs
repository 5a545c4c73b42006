//! The token engine: the ledger held in memory, with the operations that
//! read and change it.

use crate::address::Address;
use crate::amount::Amount;
use crate::error::ErrorERC20;
use crate::accounting::{lemma_total_bounds_each, lemma_written_amounts};
use crate::laws::{
    lemma_installed, lemma_step_conserves_supply, lemma_transfer_succeeds_when_covered, Operation,
};
use crate::state::LedgerState;
use crate::table::{entries_map, Table};
use vstd::prelude::*;

verus! {

/// An installed token: its name, symbol and decimals, the supply, what each
/// address holds and what each owner allows each spender to take.
pub struct Token {
    name: String,
    symbol: String,
    decimals: u8,
    total_supply: Amount,
    balances: Table<Address>,
    allowances: Table<(Address, Address)>,
    minter: Option<Address>,
}

impl View for Token {
    type V = LedgerState;

    /// The state of the ledger.
    closed spec fn view(&self) -> LedgerState {
        LedgerState {
            name: self.name@,
            symbol: self.symbol@,
            decimals: self.decimals,
            total_supply: self.total_supply@,
            balances: self.balances@,
            allowances: self.allowances@,
            minter: self.minter,
        }
    }
}

impl Token {
    /// Every number of the ledger fits in 256 bits.
    pub proof fn lemma_representable(self)
        ensures
            self@.representable(),
    {
        self.total_supply.lemma_bounded();
        self.balances.lemma_view_bounded();
        self.allowances.lemma_view_bounded();
    }

    /// Installs the token: fixes name, symbol and decimals, and credits the
    /// whole initial supply to the installer.
    pub fn install(
        installer: Address,
        name: String,
        symbol: String,
        decimals: u8,
        initial_supply: Amount,
    ) -> (token: Token)
        ensures
            token@ == LedgerState::installed(installer, name@, symbol@, decimals, initial_supply@),
            token@.total_supply == initial_supply@,
            token@.balance_of(installer) == initial_supply@,
            token@.supply_conserved(),
    {
        let mut balances: Table<Address> = Table::new();
        balances.set(installer, initial_supply);
        proof {
            lemma_installed(installer, name@, symbol@, decimals, initial_supply@);
        }
        Token {
            name,
            symbol,
            decimals,
            total_supply: initial_supply,
            balances,
            allowances: Table::new(),
            minter: None,
        }
    }

    /// The token as it was stored: its name, symbol and decimals, the
    /// supply, who may mint, and the entries of the two tables that were
    /// kept. Where a key stands more than once in a list, its last entry
    /// counts.
    pub fn restore(
        name: String,
        symbol: String,
        decimals: u8,
        total_supply: Amount,
        minter: Option<Address>,
        balances: &Vec<(Address, Amount)>,
        allowances: &Vec<((Address, Address), Amount)>,
    ) -> (token: Token)
        ensures
            token@ == (LedgerState {
                name: name@,
                symbol: symbol@,
                decimals,
                total_supply: total_supply@,
                balances: entries_map(balances@),
                allowances: entries_map(allowances@),
                minter,
            }),
    {
        Token {
            name,
            symbol,
            decimals,
            total_supply,
            balances: Table::from_entries(balances),
            allowances: Table::from_entries(allowances),
            minter,
        }
    }

    /// The name of the token.
    pub fn name(&self) -> (r: String)
        ensures
            r@ == self@.name,
    {
        self.name.clone()
    }

    /// The symbol of the token.
    pub fn symbol(&self) -> (r: String)
        ensures
            r@ == self@.symbol,
    {
        self.symbol.clone()
    }

    /// The number of decimals of the token.
    pub fn decimals(&self) -> (r: u8)
        ensures
            r == self@.decimals,
    {
        self.decimals
    }

    /// The number of tokens that exist.
    pub fn total_supply(&self) -> (r: Amount)
        ensures
            r@ == self@.total_supply,
    {
        self.total_supply
    }

    /// What `address` holds: 0 where it never received anything.
    pub fn balance_of(&self, address: Address) -> (r: Amount)
        ensures
            r@ == self@.balance_of(address),
    {
        self.balances.get(&address)
    }

    /// What `owner` allows `spender` to take: 0 where nothing was approved.
    pub fn allowance(&self, owner: Address, spender: Address) -> (r: Amount)
        ensures
            r@ == self@.allowance(owner, spender),
    {
        self.allowances.get(&(owner, spender))
    }

    /// Moves `amount` from `caller` to `recipient`. Fails with
    /// `InsufficientBalance` where the caller holds less, and with `Overflow`
    /// where the recipient's balance would leave the range; a failure
    /// changes nothing. A transfer to oneself succeeds where the caller
    /// holds the amount, and changes nothing.
    pub fn transfer(&mut self, caller: Address, recipient: Address, amount: Amount) -> (r: Result<
        (),
        ErrorERC20,
    >)
        ensures
            r == old(self)@.transfer_outcome(caller, recipient, amount@),
            final(self)@ == old(self)@.after_transfer(caller, recipient, amount@),
            r is Err ==> final(self)@ == old(self)@,
            old(self)@.supply_conserved() ==> final(self)@.supply_conserved() && r != Err::<
                (),
                ErrorERC20,
            >(ErrorERC20::Overflow),
    {
        proof {
            let op = Operation::Transfer { caller, recipient, amount: amount@ };
            if self@.supply_conserved() {
                lemma_step_conserves_supply(self@, op);
                self.lemma_representable();
                lemma_transfer_succeeds_when_covered(self@, caller, recipient, amount@);
            }
        }
        let held = self.balances.get(&caller);
        match held.checked_sub(&amount) {
            None => Err(ErrorERC20::InsufficientBalance),
            Some(rest) => {
                if caller == recipient {
                    Ok(())
                } else {
                    let credited = self.balances.get(&recipient);
                    match credited.checked_add(&amount) {
                        None => Err(ErrorERC20::Overflow),
                        Some(sum) => {
                            self.balances.set(caller, rest);
                            self.balances.set(recipient, sum);
                            Ok(())
                        },
                    }
                }
            },
        }
    }

    /// Allows `spender` to take up to `amount` from what `caller` holds. The
    /// amount replaces what was allowed before; nothing else changes.
    pub fn approve(&mut self, caller: Address, spender: Address, amount: Amount)
        ensures
            final(self)@ == old(self)@.after_approve(caller, spender, amount@),
            final(self)@.allowance(caller, spender) == amount@,
            final(self)@.balances == old(self)@.balances,
            final(self)@.total_supply == old(self)@.total_supply,
    {
        proof {
            lemma_written_amounts(self@.allowances, (caller, spender), amount@);
        }
        self.allowances.set((caller, spender), amount);
    }

    /// Moves `amount` from `owner` to `recipient` on the allowance that
    /// `owner` gave to `caller`, and takes the amount off that allowance.
    /// Fails with `InsufficientAllowance` where the allowance is less than
    /// the amount, then with `InsufficientBalance` where the owner holds
    /// less; a failure changes nothing.
    pub fn transfer_from(
        &mut self,
        caller: Address,
        owner: Address,
        recipient: Address,
        amount: Amount,
    ) -> (r: Result<(), ErrorERC20>)
        ensures
            r == old(self)@.transfer_from_outcome(caller, owner, recipient, amount@),
            final(self)@ == old(self)@.after_transfer_from(caller, owner, recipient, amount@),
            r is Err ==> final(self)@ == old(self)@,
            old(self)@.supply_conserved() ==> final(self)@.supply_conserved() && r != Err::<
                (),
                ErrorERC20,
            >(ErrorERC20::Overflow),
    {
        proof {
            let op = Operation::TransferFrom { caller, owner, recipient, amount: amount@ };
            if self@.supply_conserved() {
                lemma_step_conserves_supply(self@, op);
                self.lemma_representable();
                lemma_transfer_succeeds_when_covered(self@, owner, recipient, amount@);
            }
        }
        let allowed = self.allowances.get(&(owner, caller));
        match allowed.checked_sub(&amount) {
            None => Err(ErrorERC20::InsufficientAllowance),
            Some(rest) => {
                match self.transfer(owner, recipient, amount) {
                    Err(error) => Err(error),
                    Ok(()) => {
                        self.allowances.set((owner, caller), rest);
                        Ok(())
                    },
                }
            },
        }
    }

    /// Makes `amount` new tokens and credits them to `owner`. Fails with
    /// `Overflow` where the owner's balance or the supply would leave the
    /// range; a failure changes nothing.
    pub fn mint(&mut self, owner: Address, amount: Amount) -> (r: Result<(), ErrorERC20>)
        ensures
            r == old(self)@.mint_outcome(owner, amount@),
            final(self)@ == old(self)@.after_mint(owner, amount@),
            r is Err ==> final(self)@ == old(self)@,
            old(self)@.supply_conserved() ==> final(self)@.supply_conserved(),
    {
        proof {
            if self@.supply_conserved() {
                lemma_step_conserves_supply(self@, Operation::Mint { owner, amount: amount@ });
            }
        }
        let held = self.balances.get(&owner);
        match held.checked_add(&amount) {
            None => Err(ErrorERC20::Overflow),
            Some(balance) => {
                match self.total_supply.checked_add(&amount) {
                    None => Err(ErrorERC20::Overflow),
                    Some(supply) => {
                        self.balances.set(owner, balance);
                        self.total_supply = supply;
                        Ok(())
                    },
                }
            },
        }
    }

    /// Takes `amount` tokens away from `owner` and from the supply. Fails
    /// with `InsufficientBalance` where the owner holds less, and with
    /// `Overflow` where the supply is less than the amount; a failure
    /// changes nothing.
    pub fn burn(&mut self, owner: Address, amount: Amount) -> (r: Result<(), ErrorERC20>)
        ensures
            r == old(self)@.burn_outcome(owner, amount@),
            final(self)@ == old(self)@.after_burn(owner, amount@),
            r is Err ==> final(self)@ == old(self)@,
            old(self)@.supply_conserved() ==> final(self)@.supply_conserved() && r != Err::<
                (),
                ErrorERC20,
            >(ErrorERC20::Overflow),
    {
        proof {
            if self@.supply_conserved() {
                lemma_step_conserves_supply(self@, Operation::Burn { owner, amount: amount@ });
                lemma_total_bounds_each(self@.balances, owner);
            }
        }
        let held = self.balances.get(&owner);
        match held.checked_sub(&amount) {
            None => Err(ErrorERC20::InsufficientBalance),
            Some(balance) => {
                match self.total_supply.checked_sub(&amount) {
                    None => Err(ErrorERC20::Overflow),
                    Some(supply) => {
                        self.balances.set(owner, balance);
                        self.total_supply = supply;
                        Ok(())
                    },
                }
            },
        }
    }

    /// The one address that may mint and burn; `None` where every caller may.
    pub fn minter(&self) -> (r: Option<Address>)
        ensures
            r == self@.minter,
    {
        self.minter
    }

    /// Says who may mint and burn from now on: the one address given, or
    /// every caller for `None`. Nothing else changes.
    pub fn set_minter(&mut self, minter: Option<Address>)
        ensures
            final(self)@ == (LedgerState { minter, ..old(self)@ }),
    {
        self.minter = minter;
    }

    /// Whether `caller` may mint and burn: `Unauthorized` where the token
    /// names one minter and the caller is another address.
    pub fn authorize(&self, caller: Address) -> (r: Result<(), ErrorERC20>)
        ensures
            r == if self@.may_mint(caller) {
                Ok::<(), ErrorERC20>(())
            } else {
                Err(ErrorERC20::Unauthorized)
            },
    {
        match self.minter {
            None => Ok(()),
            Some(minter) => {
                if minter == caller {
                    Ok(())
                } else {
                    Err(ErrorERC20::Unauthorized)
                }
            },
        }
    }
}

} // verus!
