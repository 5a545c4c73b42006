//! What holds of every ledger: the balances add up to the supply in every
//! state that can be reached, a failed operation changes nothing, and the
//! operations undo and overwrite each other as they should.

use crate::accounting::{
    amount_at, lemma_total_bounds_pair, lemma_total_empty, lemma_total_written,
    lemma_written_amounts, total, written,
};
use crate::address::Address;
use crate::amount::amount_limit;
use crate::error::ErrorERC20;
use crate::state::{moved, LedgerState};
use vstd::prelude::*;

verus! {

/// One operation that changes the ledger, with its caller and arguments.
pub enum Operation {
    /// `caller` sends `amount` to `recipient`.
    Transfer { caller: Address, recipient: Address, amount: nat },
    /// `caller` allows `spender` to take `amount`.
    Approve { caller: Address, spender: Address, amount: nat },
    /// `caller` sends `amount` from `owner` to `recipient` on the owner's allowance.
    TransferFrom { caller: Address, owner: Address, recipient: Address, amount: nat },
    /// `amount` new tokens come to `owner`.
    Mint { owner: Address, amount: nat },
    /// `amount` tokens of `owner` cease to exist.
    Burn { owner: Address, amount: nat },
}

impl Operation {
    /// The amount that the operation names.
    pub open spec fn amount(self) -> nat {
        match self {
            Operation::Transfer { amount, .. } => amount,
            Operation::Approve { amount, .. } => amount,
            Operation::TransferFrom { amount, .. } => amount,
            Operation::Mint { amount, .. } => amount,
            Operation::Burn { amount, .. } => amount,
        }
    }
}

impl LedgerState {
    /// What the operation answers in this state.
    pub open spec fn outcome(self, op: Operation) -> Result<(), ErrorERC20> {
        match op {
            Operation::Transfer { caller, recipient, amount } => self.transfer_outcome(
                caller,
                recipient,
                amount,
            ),
            Operation::Approve { .. } => Ok(()),
            Operation::TransferFrom { caller, owner, recipient, amount } => self.transfer_from_outcome(
                caller,
                owner,
                recipient,
                amount,
            ),
            Operation::Mint { owner, amount } => self.mint_outcome(owner, amount),
            Operation::Burn { owner, amount } => self.burn_outcome(owner, amount),
        }
    }

    /// The state that the operation leaves behind.
    pub open spec fn step(self, op: Operation) -> LedgerState {
        match op {
            Operation::Transfer { caller, recipient, amount } => self.after_transfer(
                caller,
                recipient,
                amount,
            ),
            Operation::Approve { caller, spender, amount } => self.after_approve(
                caller,
                spender,
                amount,
            ),
            Operation::TransferFrom { caller, owner, recipient, amount } => self.after_transfer_from(
                caller,
                owner,
                recipient,
                amount,
            ),
            Operation::Mint { owner, amount } => self.after_mint(owner, amount),
            Operation::Burn { owner, amount } => self.after_burn(owner, amount),
        }
    }

    /// The state after a list of operations, each applied to what the one
    /// before it left behind.
    pub open spec fn run(self, ops: Seq<Operation>) -> LedgerState
        decreases ops.len(),
    {
        if ops.len() == 0 {
            self
        } else {
            self.run(ops.drop_last()).step(ops.last())
        }
    }
}

/// Moving an amount takes it from the sender, gives it to the receiver and
/// leaves every other balance as it was.
pub proof fn lemma_moved_amounts(balances: Map<Address, nat>, from: Address, to: Address, amount: nat)
    requires
        from != to,
        amount <= amount_at(balances, from),
    ensures
        amount_at(moved(balances, from, to, amount), from) == amount_at(balances, from) - amount,
        amount_at(moved(balances, from, to, amount), to) == amount_at(balances, to) + amount,
        forall|other: Address|
            other != from && other != to ==> amount_at(moved(balances, from, to, amount), other)
                == amount_at(balances, other),
{
    let rest = (amount_at(balances, from) - amount) as nat;
    lemma_written_amounts(balances, from, rest);
    lemma_written_amounts(written(balances, from, rest), to, amount_at(balances, to) + amount);
}

/// Moving an amount that the sender holds leaves the sum of the balances as
/// it was.
pub proof fn lemma_moved_total(balances: Map<Address, nat>, from: Address, to: Address, amount: nat)
    requires
        balances.dom().finite(),
        from != to,
        amount <= amount_at(balances, from),
    ensures
        moved(balances, from, to, amount).dom().finite(),
        total(moved(balances, from, to, amount)) == total(balances),
{
    let rest = (amount_at(balances, from) - amount) as nat;
    let debited = written(balances, from, rest);
    lemma_written_amounts(balances, from, rest);
    lemma_total_written(balances, from, rest);
    lemma_written_amounts(debited, to, amount_at(balances, to) + amount);
    lemma_total_written(debited, to, amount_at(balances, to) + amount);
}

/// Right after installation the installer holds the whole supply, nothing
/// is allowed to anyone, and the balances add up to the supply.
pub proof fn lemma_installed(
    installer: Address,
    name: Seq<char>,
    symbol: Seq<char>,
    decimals: u8,
    initial_supply: nat,
)
    ensures
        ({
            let s = LedgerState::installed(installer, name, symbol, decimals, initial_supply);
            &&& s.total_supply == initial_supply
            &&& s.balance_of(installer) == initial_supply
            &&& forall|other: Address| other != installer ==> s.balance_of(other) == 0
            &&& forall|owner: Address, spender: Address| s.allowance(owner, spender) == 0
            &&& s.supply_conserved()
        }),
{
    let empty = Map::<Address, nat>::empty();
    lemma_total_empty::<Address>();
    lemma_written_amounts(empty, installer, initial_supply);
    lemma_total_written(empty, installer, initial_supply);
}

/// An operation that fails leaves the ledger exactly as it was.
pub proof fn lemma_failure_changes_nothing(s: LedgerState, op: Operation)
    requires
        s.outcome(op) is Err,
    ensures
        s.step(op) == s,
{
}

/// No operation changes the name, the symbol, the decimals or who may
/// mint. Only mint and burn change the supply; only transfers, mint and
/// burn change a balance; only an approval and a transfer on an allowance
/// change an allowance.
pub proof fn lemma_step_changes_only_its_own(s: LedgerState, op: Operation)
    ensures
        s.step(op).name == s.name,
        s.step(op).symbol == s.symbol,
        s.step(op).decimals == s.decimals,
        s.step(op).minter == s.minter,
        !(op is Mint || op is Burn) ==> s.step(op).total_supply == s.total_supply,
        op is Approve ==> s.step(op).balances == s.balances,
        !(op is Approve || op is TransferFrom) ==> s.step(op).allowances == s.allowances,
{
}

/// An operation on a ledger whose balances add up to the supply leaves a
/// ledger whose balances add up to the supply.
pub proof fn lemma_step_conserves_supply(s: LedgerState, op: Operation)
    requires
        s.supply_conserved(),
    ensures
        s.step(op).supply_conserved(),
{
    match op {
        Operation::Transfer { caller, recipient, amount } => {
            if s.transfer_outcome(caller, recipient, amount) is Ok && caller != recipient {
                lemma_moved_total(s.balances, caller, recipient, amount);
            }
        },
        Operation::Approve { .. } => {},
        Operation::TransferFrom { caller, owner, recipient, amount } => {
            if s.transfer_outcome(owner, recipient, amount) is Ok && owner != recipient {
                lemma_moved_total(s.balances, owner, recipient, amount);
            }
        },
        Operation::Mint { owner, amount } => {
            lemma_written_amounts(s.balances, owner, s.balance_of(owner) + amount);
            lemma_total_written(s.balances, owner, s.balance_of(owner) + amount);
        },
        Operation::Burn { owner, amount } => {
            if s.burn_outcome(owner, amount) is Ok {
                let rest = (s.balance_of(owner) - amount) as nat;
                lemma_written_amounts(s.balances, owner, rest);
                lemma_total_written(s.balances, owner, rest);
            }
        },
    }
}

/// Whatever operations follow one another, the balances keep adding up to
/// the supply.
pub proof fn lemma_run_conserves_supply(s: LedgerState, ops: Seq<Operation>)
    requires
        s.supply_conserved(),
    ensures
        s.run(ops).supply_conserved(),
    decreases ops.len(),
{
    if ops.len() > 0 {
        lemma_run_conserves_supply(s, ops.drop_last());
        lemma_step_conserves_supply(s.run(ops.drop_last()), ops.last());
    }
}

/// In every state that can be reached from an installation, the balances of
/// all addresses add up to the total supply.
pub proof fn lemma_reachable_states_conserve_supply(
    installer: Address,
    name: Seq<char>,
    symbol: Seq<char>,
    decimals: u8,
    initial_supply: nat,
    ops: Seq<Operation>,
)
    ensures
        LedgerState::installed(installer, name, symbol, decimals, initial_supply).run(
            ops,
        ).supply_conserved(),
{
    lemma_installed(installer, name, symbol, decimals, initial_supply);
    lemma_run_conserves_supply(
        LedgerState::installed(installer, name, symbol, decimals, initial_supply),
        ops,
    );
}

/// No operation makes an entry of the balances or of the allowances
/// negative, and none lets an entry or the supply reach 2^256.
pub proof fn lemma_step_keeps_entries_in_range(s: LedgerState, op: Operation)
    requires
        s.representable(),
        op.amount() < amount_limit(),
    ensures
        s.step(op).representable(),
        forall|address: Address| 0 <= #[trigger] s.step(op).balance_of(address),
        forall|owner: Address, spender: Address| 0 <= #[trigger] s.step(op).allowance(owner, spender),
{
    let after = s.step(op);
    match op {
        Operation::Transfer { caller, recipient, amount } => {
            if s.transfer_outcome(caller, recipient, amount) is Ok && caller != recipient {
                lemma_moved_total(s.balances, caller, recipient, amount);
                lemma_moved_amounts(s.balances, caller, recipient, amount);
            }
        },
        Operation::Approve { caller, spender, amount } => {
            lemma_written_amounts(s.allowances, (caller, spender), amount);
        },
        Operation::TransferFrom { caller, owner, recipient, amount } => {
            if s.transfer_from_outcome(caller, owner, recipient, amount) is Ok {
                let rest = (s.allowance(owner, caller) - amount) as nat;
                lemma_written_amounts(s.allowances, (owner, caller), rest);
                if owner != recipient {
                    lemma_moved_total(s.balances, owner, recipient, amount);
                    lemma_moved_amounts(s.balances, owner, recipient, amount);
                }
            }
        },
        Operation::Mint { owner, amount } => {
            if s.mint_outcome(owner, amount) is Ok {
                lemma_written_amounts(s.balances, owner, s.balance_of(owner) + amount);
            }
        },
        Operation::Burn { owner, amount } => {
            if s.burn_outcome(owner, amount) is Ok {
                let rest = (s.balance_of(owner) - amount) as nat;
                lemma_written_amounts(s.balances, owner, rest);
            }
        },
    }
    assert forall|address: Address| #[trigger] after.balance_of(address) < amount_limit() by {
        assert(s.balance_of(address) < amount_limit());
    }
    assert forall|owner: Address, spender: Address| #[trigger]
        after.allowance(owner, spender) < amount_limit() by {
        assert(s.allowance(owner, spender) < amount_limit());
    }
}

/// Where the balances add up to a supply that fits in 256 bits, no credit
/// can overflow: a transfer succeeds exactly when the sender holds the
/// amount.
pub proof fn lemma_transfer_succeeds_when_covered(
    s: LedgerState,
    caller: Address,
    recipient: Address,
    amount: nat,
)
    requires
        s.supply_conserved(),
        s.total_supply < amount_limit(),
    ensures
        s.transfer_outcome(caller, recipient, amount) == if s.balance_of(caller) < amount {
            Err::<(), ErrorERC20>(ErrorERC20::InsufficientBalance)
        } else {
            Ok(())
        },
{
    if caller != recipient {
        lemma_total_bounds_pair(s.balances, caller, recipient);
    }
}

/// A transfer to oneself of an amount that one holds succeeds and leaves
/// the ledger exactly as it was.
pub proof fn lemma_self_transfer_changes_nothing(s: LedgerState, caller: Address, amount: nat)
    requires
        amount <= s.balance_of(caller),
    ensures
        s.transfer_outcome(caller, caller, amount) is Ok,
        s.after_transfer(caller, caller, amount) == s,
{
}

/// An approval replaces the allowance: after two approvals for the same
/// owner and spender the allowance is the second amount.
pub proof fn lemma_approve_overwrites(
    s: LedgerState,
    owner: Address,
    spender: Address,
    first: nat,
    second: nat,
)
    ensures
        s.after_approve(owner, spender, first).allowance(owner, spender) == first,
        s.after_approve(owner, spender, first).after_approve(owner, spender, second).allowance(
            owner,
            spender,
        ) == second,
{
    lemma_written_amounts(s.allowances, (owner, spender), first);
    lemma_written_amounts(s.after_approve(owner, spender, first).allowances, (owner, spender), second);
}

/// A transfer of all that the sender holds to another address, whose
/// balance has room for it, succeeds and leaves the sender with 0.
pub proof fn lemma_transfer_of_whole_balance(s: LedgerState, caller: Address, recipient: Address)
    requires
        caller != recipient,
        s.balance_of(recipient) + s.balance_of(caller) < amount_limit(),
    ensures
        s.transfer_outcome(caller, recipient, s.balance_of(caller)) is Ok,
        s.after_transfer(caller, recipient, s.balance_of(caller)).balance_of(caller) == 0,
        s.after_transfer(caller, recipient, s.balance_of(caller)).balance_of(recipient)
            == s.balance_of(recipient) + s.balance_of(caller),
{
    lemma_moved_amounts(s.balances, caller, recipient, s.balance_of(caller));
}

/// Where the balances add up to a supply that fits in 256 bits, the
/// balances of two different addresses together fit in 256 bits.
pub proof fn lemma_conserved_balances_have_room(s: LedgerState, first: Address, second: Address)
    requires
        s.supply_conserved(),
        s.total_supply < amount_limit(),
        first != second,
    ensures
        s.balance_of(first) + s.balance_of(second) < amount_limit(),
{
    lemma_total_bounds_pair(s.balances, first, second);
}

/// A transfer on an allowance that covers the amount, from an owner who
/// holds it, to another address whose balance has room for it, succeeds,
/// takes the amount off the allowance and moves it between the balances.
pub proof fn lemma_transfer_from_spends_allowance(
    s: LedgerState,
    caller: Address,
    owner: Address,
    recipient: Address,
    amount: nat,
)
    requires
        owner != recipient,
        amount <= s.allowance(owner, caller),
        amount <= s.balance_of(owner),
        s.balance_of(recipient) + amount < amount_limit(),
    ensures
        s.transfer_from_outcome(caller, owner, recipient, amount) is Ok,
        s.after_transfer_from(caller, owner, recipient, amount).allowance(owner, caller)
            == s.allowance(owner, caller) - amount,
        s.after_transfer_from(caller, owner, recipient, amount).balance_of(owner) == s.balance_of(
            owner,
        ) - amount,
        s.after_transfer_from(caller, owner, recipient, amount).balance_of(recipient)
            == s.balance_of(recipient) + amount,
        s.after_transfer_from(caller, owner, recipient, amount).total_supply == s.total_supply,
{
    lemma_moved_amounts(s.balances, owner, recipient, amount);
    lemma_written_amounts(
        s.allowances,
        (owner, caller),
        (s.allowance(owner, caller) - amount) as nat,
    );
}

/// A transfer of one more than the sender holds fails for want of balance
/// and leaves the ledger exactly as it was.
pub proof fn lemma_transfer_beyond_balance(s: LedgerState, caller: Address, recipient: Address)
    ensures
        s.transfer_outcome(caller, recipient, s.balance_of(caller) + 1) == Err::<(), ErrorERC20>(
            ErrorERC20::InsufficientBalance,
        ),
        s.after_transfer(caller, recipient, s.balance_of(caller) + 1) == s,
{
}

/// Minting an amount and then burning the same amount from the same
/// address succeeds and leaves every balance and the supply as they were.
pub proof fn lemma_mint_then_burn(s: LedgerState, owner: Address, amount: nat)
    requires
        s.mint_outcome(owner, amount) is Ok,
    ensures
        s.after_mint(owner, amount).balance_of(owner) == s.balance_of(owner) + amount,
        s.after_mint(owner, amount).total_supply == s.total_supply + amount,
        s.after_mint(owner, amount).burn_outcome(owner, amount) is Ok,
        s.after_mint(owner, amount).after_burn(owner, amount).total_supply == s.total_supply,
        forall|address: Address| #[trigger]
            s.after_mint(owner, amount).after_burn(owner, amount).balance_of(address)
                == s.balance_of(address),
        s.after_mint(owner, amount).after_burn(owner, amount).allowances == s.allowances,
{
    let minted = s.after_mint(owner, amount);
    lemma_written_amounts(s.balances, owner, s.balance_of(owner) + amount);
    lemma_written_amounts(minted.balances, owner, (minted.balance_of(owner) - amount) as nat);
}

} // verus!
