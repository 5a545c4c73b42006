//! The ledger as a mathematical value: what each operation of the token
//! answers and what it leaves behind, and the laws that follow.

use crate::accounting::{amount_at, total, written};
use crate::address::Address;
use crate::amount::amount_limit;
use crate::error::ErrorERC20;
use vstd::prelude::*;

verus! {

/// The state of an installed token.
pub struct LedgerState {
    /// The name of the token, fixed at installation.
    pub name: Seq<char>,
    /// The symbol of the token, fixed at installation.
    pub symbol: Seq<char>,
    /// The number of decimals of the token, fixed at installation.
    pub decimals: u8,
    /// The number of tokens that exist.
    pub total_supply: nat,
    /// What each address holds. An address without an entry holds 0.
    pub balances: Map<Address, nat>,
    /// What each owner allows each spender to take, by the pair of owner and
    /// spender. A pair without an entry allows 0.
    pub allowances: Map<(Address, Address), nat>,
    /// The one address that may mint and burn; `None` where every caller may.
    pub minter: Option<Address>,
}

/// The balances after `amount` has moved from `from` to another address `to`.
pub open spec fn moved(balances: Map<Address, nat>, from: Address, to: Address, amount: nat) -> Map<
    Address,
    nat,
> {
    written(
        written(balances, from, (amount_at(balances, from) - amount) as nat),
        to,
        amount_at(balances, to) + amount,
    )
}

impl LedgerState {
    /// What `address` holds.
    pub open spec fn balance_of(self, address: Address) -> nat {
        amount_at(self.balances, address)
    }

    /// What `owner` allows `spender` to take.
    pub open spec fn allowance(self, owner: Address, spender: Address) -> nat {
        amount_at(self.allowances, (owner, spender))
    }

    /// Every number of the ledger fits in 256 bits, and both tables are finite.
    pub open spec fn representable(self) -> bool {
        &&& self.total_supply < amount_limit()
        &&& self.balances.dom().finite()
        &&& self.allowances.dom().finite()
        &&& forall|address: Address| #[trigger] self.balance_of(address) < amount_limit()
        &&& forall|owner: Address, spender: Address| #[trigger]
            self.allowance(owner, spender) < amount_limit()
    }

    /// The balances add up to the total supply.
    pub open spec fn supply_conserved(self) -> bool {
        &&& self.balances.dom().finite()
        &&& total(self.balances) == self.total_supply
    }

    /// Whether `caller` may mint and burn.
    pub open spec fn may_mint(self, caller: Address) -> bool {
        self.minter is None || self.minter == Some(caller)
    }

    /// The ledger right after installation: the whole supply is held by the
    /// installer, nothing is allowed to anyone, and every caller may mint.
    pub open spec fn installed(
        installer: Address,
        name: Seq<char>,
        symbol: Seq<char>,
        decimals: u8,
        initial_supply: nat,
    ) -> LedgerState {
        LedgerState {
            name,
            symbol,
            decimals,
            total_supply: initial_supply,
            balances: written(Map::empty(), installer, initial_supply),
            allowances: Map::empty(),
            minter: None,
        }
    }

    /// What a transfer of `amount` from `caller` to `recipient` answers.
    pub open spec fn transfer_outcome(self, caller: Address, recipient: Address, amount: nat) -> Result<
        (),
        ErrorERC20,
    > {
        if self.balance_of(caller) < amount {
            Err(ErrorERC20::InsufficientBalance)
        } else if caller != recipient && self.balance_of(recipient) + amount >= amount_limit() {
            Err(ErrorERC20::Overflow)
        } else {
            Ok(())
        }
    }

    /// The ledger after a transfer of `amount` from `caller` to `recipient`
    /// was asked for. A transfer to oneself changes nothing.
    pub open spec fn after_transfer(self, caller: Address, recipient: Address, amount: nat) -> LedgerState {
        if self.transfer_outcome(caller, recipient, amount) is Ok && caller != recipient {
            LedgerState { balances: moved(self.balances, caller, recipient, amount), ..self }
        } else {
            self
        }
    }

    /// The ledger after `caller` has allowed `spender` to take `amount`. The
    /// amount replaces what was allowed before.
    pub open spec fn after_approve(self, caller: Address, spender: Address, amount: nat) -> LedgerState {
        LedgerState { allowances: written(self.allowances, (caller, spender), amount), ..self }
    }

    /// What a transfer of `amount` from `owner` to `recipient` answers when
    /// `caller` asks for it on the owner's allowance. The allowance is looked
    /// at first, the owner's balance second.
    pub open spec fn transfer_from_outcome(
        self,
        caller: Address,
        owner: Address,
        recipient: Address,
        amount: nat,
    ) -> Result<(), ErrorERC20> {
        if self.allowance(owner, caller) < amount {
            Err(ErrorERC20::InsufficientAllowance)
        } else {
            self.transfer_outcome(owner, recipient, amount)
        }
    }

    /// The ledger after `caller` asked for a transfer of `amount` from
    /// `owner` to `recipient` on the owner's allowance.
    pub open spec fn after_transfer_from(
        self,
        caller: Address,
        owner: Address,
        recipient: Address,
        amount: nat,
    ) -> LedgerState {
        if self.transfer_from_outcome(caller, owner, recipient, amount) is Ok {
            LedgerState {
                allowances: written(
                    self.allowances,
                    (owner, caller),
                    (self.allowance(owner, caller) - amount) as nat,
                ),
                ..self.after_transfer(owner, recipient, amount)
            }
        } else {
            self
        }
    }

    /// What minting `amount` for `owner` answers.
    pub open spec fn mint_outcome(self, owner: Address, amount: nat) -> Result<(), ErrorERC20> {
        if self.balance_of(owner) + amount >= amount_limit() || self.total_supply + amount
            >= amount_limit() {
            Err(ErrorERC20::Overflow)
        } else {
            Ok(())
        }
    }

    /// The ledger after minting `amount` for `owner` was asked for.
    pub open spec fn after_mint(self, owner: Address, amount: nat) -> LedgerState {
        if self.mint_outcome(owner, amount) is Ok {
            LedgerState {
                balances: written(self.balances, owner, self.balance_of(owner) + amount),
                total_supply: self.total_supply + amount,
                ..self
            }
        } else {
            self
        }
    }

    /// What burning `amount` of what `owner` holds answers.
    pub open spec fn burn_outcome(self, owner: Address, amount: nat) -> Result<(), ErrorERC20> {
        if self.balance_of(owner) < amount {
            Err(ErrorERC20::InsufficientBalance)
        } else if self.total_supply < amount {
            Err(ErrorERC20::Overflow)
        } else {
            Ok(())
        }
    }

    /// The ledger after burning `amount` of what `owner` holds was asked for.
    pub open spec fn after_burn(self, owner: Address, amount: nat) -> LedgerState {
        if self.burn_outcome(owner, amount) is Ok {
            LedgerState {
                balances: written(self.balances, owner, (self.balance_of(owner) - amount) as nat),
                total_supply: (self.total_supply - amount) as nat,
                ..self
            }
        } else {
            self
        }
    }
}

} // verus!
