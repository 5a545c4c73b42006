use erc20_token::address::Address;
use erc20_token::amount::Amount;
use erc20_token::error::{ArgName, ErrorERC20};
use erc20_token::token::Token;

fn account(tag: u8) -> Address {
    Address::Account([tag; 32])
}

fn contract(tag: u8) -> Address {
    Address::Contract([tag; 32])
}

fn units(value: u64) -> Amount {
    Amount::from_u64(value)
}

fn test_token(installer: Address, supply: u64) -> Token {
    Token::install(installer, String::from("Test"), String::from("TST"), 9, units(supply))
}

fn sum_of_balances(token: &Token, holders: &[Address]) -> Amount {
    let mut sum: Amount = Amount::zero();
    for holder in holders {
        sum = sum.checked_add(&token.balance_of(*holder)).unwrap();
    }
    sum
}

#[test]
fn install_credits_the_installer() {
    let installer: Address = account(1);
    let token: Token = test_token(installer, 1000);
    assert_eq!(token.balance_of(installer), units(1000));
    assert_eq!(token.total_supply(), units(1000));
    assert_eq!(token.name(), "Test");
    assert_eq!(token.symbol(), "TST");
    assert_eq!(token.decimals(), 9u8);
    assert_eq!(token.balance_of(account(2)), Amount::zero());
    assert_eq!(token.allowance(installer, account(2)), Amount::zero());
    assert_eq!(token.minter(), None);
}

#[test]
fn install_with_no_supply() {
    let token: Token = test_token(account(1), 0);
    assert_eq!(token.balance_of(account(1)), Amount::zero());
    assert_eq!(token.total_supply(), Amount::zero());
}

#[test]
fn account_and_contract_with_one_hash_are_two_holders() {
    let mut token: Token = test_token(account(7), 10);
    assert_eq!(token.balance_of(contract(7)), Amount::zero());
    assert_eq!(token.transfer(account(7), contract(7), units(4)), Ok(()));
    assert_eq!(token.balance_of(account(7)), units(6));
    assert_eq!(token.balance_of(contract(7)), units(4));
}

#[test]
fn transfer_moves_the_amount() {
    let a: Address = account(1);
    let b: Address = account(2);
    let mut token: Token = test_token(a, 1000);
    assert_eq!(token.transfer(a, b, units(400)), Ok(()));
    assert_eq!(token.balance_of(a), units(600));
    assert_eq!(token.balance_of(b), units(400));
    assert_eq!(token.total_supply(), units(1000));
}

#[test]
fn transfer_to_oneself_changes_nothing() {
    let a: Address = account(1);
    let b: Address = account(2);
    let mut token: Token = test_token(a, 1000);
    assert_eq!(token.transfer(a, b, units(250)), Ok(()));
    assert_eq!(token.transfer(a, a, units(750)), Ok(()));
    assert_eq!(token.transfer(a, a, units(1)), Ok(()));
    assert_eq!(token.transfer(a, a, units(0)), Ok(()));
    assert_eq!(token.balance_of(a), units(750));
    assert_eq!(token.balance_of(b), units(250));
    assert_eq!(token.total_supply(), units(1000));
}

#[test]
fn transfer_to_oneself_needs_the_balance() {
    let a: Address = account(1);
    let mut token: Token = test_token(a, 1000);
    assert_eq!(
        token.transfer(a, a, units(1001)),
        Err(ErrorERC20::InsufficientBalance)
    );
    assert_eq!(token.balance_of(a), units(1000));
    assert_eq!(
        token.transfer(account(3), account(3), units(1)),
        Err(ErrorERC20::InsufficientBalance)
    );
}

#[test]
fn transfer_of_the_whole_balance_leaves_zero() {
    let a: Address = account(1);
    let b: Address = account(2);
    let mut token: Token = test_token(a, 1000);
    let all: Amount = token.balance_of(a);
    assert_eq!(token.transfer(a, b, all), Ok(()));
    assert_eq!(token.balance_of(a), Amount::zero());
    assert_eq!(token.balance_of(b), units(1000));
}

#[test]
fn transfer_of_one_more_than_the_balance_fails() {
    let a: Address = account(1);
    let b: Address = account(2);
    let mut token: Token = test_token(a, 1000);
    assert_eq!(token.transfer(a, b, units(300)), Ok(()));
    let too_much: Amount = token.balance_of(a).checked_add(&units(1)).unwrap();
    assert_eq!(
        token.transfer(a, b, too_much),
        Err(ErrorERC20::InsufficientBalance)
    );
    assert_eq!(token.balance_of(a), units(700));
    assert_eq!(token.balance_of(b), units(300));
}

#[test]
fn transfer_of_nothing_succeeds() {
    let a: Address = account(1);
    let b: Address = account(2);
    let mut token: Token = test_token(a, 5);
    assert_eq!(token.transfer(b, a, units(0)), Ok(()));
    assert_eq!(token.transfer(a, b, units(0)), Ok(()));
    assert_eq!(token.balance_of(a), units(5));
    assert_eq!(token.balance_of(b), units(0));
}

#[test]
fn transfer_from_an_empty_balance_fails() {
    let a: Address = account(1);
    let b: Address = account(2);
    let mut token: Token = test_token(a, 5);
    assert_eq!(
        token.transfer(b, a, units(1)),
        Err(ErrorERC20::InsufficientBalance)
    );
    assert_eq!(token.balance_of(a), units(5));
}

#[test]
fn transfer_reports_overflow_of_the_recipient() {
    let a: Address = account(1);
    let b: Address = account(2);
    let balances: Vec<(Address, Amount)> = vec![(a, units(10)), (b, Amount::max_value())];
    let mut token: Token = Token::restore(
        String::from("Test"),
        String::from("TST"),
        9,
        Amount::max_value(),
        None,
        &balances,
        &Vec::new(),
    );
    assert_eq!(token.transfer(a, b, units(1)), Err(ErrorERC20::Overflow));
    assert_eq!(token.balance_of(a), units(10));
    assert_eq!(token.balance_of(b), Amount::max_value());
}

#[test]
fn approve_sets_the_allowance() {
    let a: Address = account(1);
    let b: Address = account(2);
    let mut token: Token = test_token(a, 1000);
    token.approve(a, b, units(50));
    assert_eq!(token.allowance(a, b), units(50));
    assert_eq!(token.allowance(b, a), Amount::zero());
    assert_eq!(token.balance_of(a), units(1000));
}

#[test]
fn approve_overwrites_the_allowance() {
    let a: Address = account(1);
    let b: Address = account(2);
    let mut token: Token = test_token(a, 1000);
    token.approve(a, b, units(50));
    token.approve(a, b, units(30));
    assert_eq!(token.allowance(a, b), units(30));
    token.approve(a, b, units(0));
    assert_eq!(token.allowance(a, b), Amount::zero());
}

#[test]
fn approve_needs_no_balance() {
    let b: Address = account(2);
    let c: Address = account(3);
    let mut token: Token = test_token(account(1), 1000);
    token.approve(b, c, Amount::max_value());
    assert_eq!(token.allowance(b, c), Amount::max_value());
}

#[test]
fn transfer_from_spends_the_allowance() {
    let a: Address = account(1);
    let b: Address = account(2);
    let c: Address = account(3);
    let mut token: Token = test_token(a, 1000);
    token.approve(a, b, units(100));
    assert_eq!(token.transfer_from(b, a, c, units(60)), Ok(()));
    assert_eq!(token.allowance(a, b), units(40));
    assert_eq!(token.balance_of(a), units(940));
    assert_eq!(token.balance_of(c), units(60));
    assert_eq!(token.balance_of(b), Amount::zero());
    assert_eq!(token.total_supply(), units(1000));
}

#[test]
fn transfer_from_beyond_the_allowance_changes_nothing() {
    let a: Address = account(1);
    let b: Address = account(2);
    let c: Address = account(3);
    let mut token: Token = test_token(a, 1000);
    token.approve(a, b, units(100));
    assert_eq!(
        token.transfer_from(b, a, c, units(101)),
        Err(ErrorERC20::InsufficientAllowance)
    );
    assert_eq!(token.allowance(a, b), units(100));
    assert_eq!(token.balance_of(a), units(1000));
    assert_eq!(token.balance_of(c), Amount::zero());
}

#[test]
fn transfer_from_looks_at_the_allowance_first() {
    let a: Address = account(1);
    let b: Address = account(2);
    let c: Address = account(3);
    let mut token: Token = test_token(a, 10);
    token.approve(a, b, units(20));
    assert_eq!(
        token.transfer_from(b, a, c, units(21)),
        Err(ErrorERC20::InsufficientAllowance)
    );
    assert_eq!(
        token.transfer_from(b, a, c, units(11)),
        Err(ErrorERC20::InsufficientBalance)
    );
    assert_eq!(token.allowance(a, b), units(20));
    assert_eq!(token.balance_of(a), units(10));
    assert_eq!(token.balance_of(c), Amount::zero());
}

#[test]
fn transfer_from_back_to_the_owner_spends_the_allowance_only() {
    let a: Address = account(1);
    let b: Address = account(2);
    let mut token: Token = test_token(a, 10);
    token.approve(a, b, units(8));
    assert_eq!(token.transfer_from(b, a, a, units(3)), Ok(()));
    assert_eq!(token.allowance(a, b), units(5));
    assert_eq!(token.balance_of(a), units(10));
}

#[test]
fn transfer_from_uses_the_caller_as_spender() {
    let a: Address = account(1);
    let b: Address = account(2);
    let c: Address = account(3);
    let mut token: Token = test_token(a, 10);
    token.approve(a, b, units(8));
    assert_eq!(
        token.transfer_from(c, a, c, units(1)),
        Err(ErrorERC20::InsufficientAllowance)
    );
    assert_eq!(token.transfer_from(b, a, b, units(8)), Ok(()));
    assert_eq!(token.balance_of(b), units(8));
    assert_eq!(token.allowance(a, b), Amount::zero());
}

#[test]
fn mint_adds_to_balance_and_supply() {
    let a: Address = account(1);
    let x: Address = account(9);
    let mut token: Token = test_token(a, 1000);
    assert_eq!(token.mint(x, units(500)), Ok(()));
    assert_eq!(token.total_supply(), units(1500));
    assert_eq!(token.balance_of(x), units(500));
    assert_eq!(token.balance_of(a), units(1000));
}

#[test]
fn burn_takes_back_what_mint_gave() {
    let a: Address = account(1);
    let x: Address = account(9);
    let mut token: Token = test_token(a, 1000);
    assert_eq!(token.transfer(a, x, units(20)), Ok(()));
    assert_eq!(token.mint(x, units(500)), Ok(()));
    assert_eq!(token.burn(x, units(500)), Ok(()));
    assert_eq!(token.total_supply(), units(1000));
    assert_eq!(token.balance_of(x), units(20));
    assert_eq!(token.balance_of(a), units(980));
}

#[test]
fn mint_reports_overflow_of_the_supply() {
    let a: Address = account(1);
    let x: Address = account(9);
    let mut token: Token = Token::install(
        a,
        String::from("Test"),
        String::from("TST"),
        9,
        Amount::max_value(),
    );
    assert_eq!(token.mint(x, units(1)), Err(ErrorERC20::Overflow));
    assert_eq!(token.balance_of(x), Amount::zero());
    assert_eq!(token.total_supply(), Amount::max_value());
    assert_eq!(token.mint(x, units(0)), Ok(()));
}

#[test]
fn mint_reports_overflow_of_the_balance() {
    let x: Address = account(9);
    let balances: Vec<(Address, Amount)> = vec![(x, Amount::max_value())];
    let mut token: Token = Token::restore(
        String::from("Test"),
        String::from("TST"),
        9,
        units(3),
        None,
        &balances,
        &Vec::new(),
    );
    assert_eq!(token.mint(x, units(1)), Err(ErrorERC20::Overflow));
    assert_eq!(token.balance_of(x), Amount::max_value());
    assert_eq!(token.total_supply(), units(3));
}

#[test]
fn burn_needs_the_balance() {
    let a: Address = account(1);
    let x: Address = account(9);
    let mut token: Token = test_token(a, 1000);
    assert_eq!(token.burn(x, units(1)), Err(ErrorERC20::InsufficientBalance));
    assert_eq!(
        token.burn(a, units(1001)),
        Err(ErrorERC20::InsufficientBalance)
    );
    assert_eq!(token.total_supply(), units(1000));
    assert_eq!(token.balance_of(a), units(1000));
    assert_eq!(token.burn(a, units(1000)), Ok(()));
    assert_eq!(token.total_supply(), Amount::zero());
    assert_eq!(token.balance_of(a), Amount::zero());
}

#[test]
fn burn_reports_a_supply_below_the_amount() {
    let x: Address = account(9);
    let balances: Vec<(Address, Amount)> = vec![(x, units(10))];
    let mut token: Token = Token::restore(
        String::from("Test"),
        String::from("TST"),
        9,
        units(3),
        None,
        &balances,
        &Vec::new(),
    );
    assert_eq!(token.burn(x, units(4)), Err(ErrorERC20::Overflow));
    assert_eq!(token.balance_of(x), units(10));
    assert_eq!(token.total_supply(), units(3));
}

#[test]
fn balances_add_up_to_the_supply() {
    let a: Address = account(1);
    let b: Address = account(2);
    let c: Address = contract(3);
    let holders: [Address; 3] = [a, b, c];
    let mut token: Token = test_token(a, 1000);
    assert_eq!(sum_of_balances(&token, &holders), token.total_supply());
    assert_eq!(token.transfer(a, b, units(300)), Ok(()));
    assert_eq!(sum_of_balances(&token, &holders), token.total_supply());
    token.approve(b, c, units(200));
    assert_eq!(token.transfer_from(c, b, c, units(150)), Ok(()));
    assert_eq!(sum_of_balances(&token, &holders), token.total_supply());
    assert_eq!(token.mint(c, units(77)), Ok(()));
    assert_eq!(sum_of_balances(&token, &holders), token.total_supply());
    assert_eq!(token.burn(b, units(100)), Ok(()));
    assert_eq!(sum_of_balances(&token, &holders), token.total_supply());
    assert_eq!(token.burn(b, units(100)), Err(ErrorERC20::InsufficientBalance));
    assert_eq!(token.transfer(a, c, units(701)), Err(ErrorERC20::InsufficientBalance));
    assert_eq!(sum_of_balances(&token, &holders), token.total_supply());
    assert_eq!(token.total_supply(), units(977));
    assert_eq!(token.balance_of(a), units(700));
    assert_eq!(token.balance_of(b), units(50));
    assert_eq!(token.balance_of(c), units(227));
}

#[test]
fn operations_leave_the_metadata_alone() {
    let a: Address = account(1);
    let b: Address = account(2);
    let mut token: Token = test_token(a, 1000);
    assert_eq!(token.transfer(a, b, units(1)), Ok(()));
    token.approve(a, b, units(1));
    assert_eq!(token.mint(a, units(1)), Ok(()));
    assert_eq!(token.burn(a, units(1)), Ok(()));
    assert_eq!(token.name(), "Test");
    assert_eq!(token.symbol(), "TST");
    assert_eq!(token.decimals(), 9u8);
}

#[test]
fn restore_brings_back_what_was_stored() {
    let a: Address = account(1);
    let b: Address = contract(2);
    let balances: Vec<(Address, Amount)> = vec![(a, units(10)), (b, units(5))];
    let allowances: Vec<((Address, Address), Amount)> = vec![((a, b), units(4))];
    let token: Token = Token::restore(
        String::from("Coin"),
        String::from("C"),
        2,
        units(15),
        Some(a),
        &balances,
        &allowances,
    );
    assert_eq!(token.name(), "Coin");
    assert_eq!(token.symbol(), "C");
    assert_eq!(token.decimals(), 2u8);
    assert_eq!(token.total_supply(), units(15));
    assert_eq!(token.minter(), Some(a));
    assert_eq!(token.balance_of(a), units(10));
    assert_eq!(token.balance_of(b), units(5));
    assert_eq!(token.allowance(a, b), units(4));
    assert_eq!(token.allowance(b, a), Amount::zero());
}

#[test]
fn restore_takes_the_last_entry_of_a_key() {
    let a: Address = account(1);
    let balances: Vec<(Address, Amount)> = vec![(a, units(10)), (account(2), units(1)), (a, units(7))];
    let token: Token = Token::restore(
        String::from("Coin"),
        String::from("C"),
        2,
        units(8),
        None,
        &balances,
        &Vec::new(),
    );
    assert_eq!(token.balance_of(a), units(7));
    assert_eq!(token.balance_of(account(2)), units(1));
}

#[test]
fn authorize_follows_the_minter() {
    let a: Address = account(1);
    let b: Address = account(2);
    let mut token: Token = test_token(a, 1000);
    assert_eq!(token.authorize(a), Ok(()));
    assert_eq!(token.authorize(b), Ok(()));
    token.set_minter(Some(a));
    assert_eq!(token.minter(), Some(a));
    assert_eq!(token.authorize(a), Ok(()));
    assert_eq!(token.authorize(b), Err(ErrorERC20::Unauthorized));
    assert_eq!(token.authorize(contract(1)), Err(ErrorERC20::Unauthorized));
    token.set_minter(None);
    assert_eq!(token.authorize(b), Ok(()));
}

#[test]
fn addresses_compare_by_tag_and_hash() {
    assert_eq!(account(1), account(1));
    assert_ne!(account(1), account(2));
    assert_ne!(account(1), contract(1));
    let mut almost: [u8; 32] = [1; 32];
    almost[31] = 2;
    assert_ne!(account(1), Address::Account(almost));
    assert!(account(1) < account(2));
    assert!(account(1) < Address::Account(almost));
    assert!(account(255) < contract(0));
    assert!(contract(1) < contract(2));
}

#[test]
fn precedes_orders_by_tag_then_hash() {
    assert!(account(1).precedes(&account(2)));
    assert!(!account(2).precedes(&account(1)));
    assert!(!account(1).precedes(&account(1)));
    assert!(account(255).precedes(&contract(0)));
    assert!(!contract(0).precedes(&account(255)));
    let mut low: [u8; 32] = [9; 32];
    let mut high: [u8; 32] = [9; 32];
    low[5] = 1;
    high[5] = 2;
    low[6] = 200;
    high[6] = 100;
    assert!(Address::Contract(low).precedes(&Address::Contract(high)));
    assert!(!Address::Contract(high).precedes(&Address::Contract(low)));
    assert!(Address::Contract(low) < Address::Contract(high));
    assert_eq!(
        Address::Contract(low).partial_cmp(&Address::Contract(high)),
        Some(std::cmp::Ordering::Less)
    );
    assert_eq!(
        Address::Contract(low).cmp(&Address::Contract(high)),
        std::cmp::Ordering::Less
    );
    assert_eq!(
        account(3).partial_cmp(&account(3)),
        Some(std::cmp::Ordering::Equal)
    );
    assert_eq!(
        contract(3).partial_cmp(&account(4)),
        Some(std::cmp::Ordering::Greater)
    );
}

#[test]
fn argument_names_are_the_names_of_the_call() {
    assert_eq!(ArgName::Address.key(), "address");
    assert_eq!(ArgName::Owner.key(), "owner");
    assert_eq!(ArgName::Spender.key(), "spender");
    assert_eq!(ArgName::Recipient.key(), "recipient");
    assert_eq!(ArgName::Amount.key(), "amount");
    assert_eq!(ArgName::Name.key(), "name");
    assert_eq!(ArgName::Symbol.key(), "symbol");
    assert_eq!(ArgName::Decimals.key(), "decimals");
    assert_eq!(ArgName::TotalSupply.key(), "total_supply");
}

#[test]
fn no_entry_goes_below_zero() {
    let a: Address = account(1);
    let b: Address = account(2);
    let c: Address = account(3);
    let mut token: Token = test_token(a, 3);
    assert_eq!(token.transfer(b, c, units(1)), Err(ErrorERC20::InsufficientBalance));
    assert_eq!(token.burn(b, units(1)), Err(ErrorERC20::InsufficientBalance));
    assert_eq!(
        token.transfer_from(c, a, b, units(1)),
        Err(ErrorERC20::InsufficientAllowance)
    );
    token.approve(a, c, units(2));
    assert_eq!(
        token.transfer_from(c, a, b, units(3)),
        Err(ErrorERC20::InsufficientAllowance)
    );
    assert_eq!(token.transfer_from(c, a, b, units(2)), Ok(()));
    assert_eq!(
        token.transfer_from(c, a, b, units(1)),
        Err(ErrorERC20::InsufficientAllowance)
    );
    assert_eq!(token.transfer(a, b, units(2)), Err(ErrorERC20::InsufficientBalance));
    assert_eq!(token.balance_of(a), units(1));
    assert_eq!(token.balance_of(b), units(2));
    assert_eq!(token.balance_of(c), Amount::zero());
    assert_eq!(token.allowance(a, c), Amount::zero());
    assert_eq!(token.total_supply(), units(3));
}

#[test]
fn the_order_of_addresses_is_strict_and_total() {
    let mut mixed: [u8; 32] = [0; 32];
    mixed[31] = 1;
    let all: [Address; 6] = [
        account(0),
        Address::Account(mixed),
        account(200),
        contract(0),
        Address::Contract(mixed),
        contract(200),
    ];
    for (i, first) in all.iter().enumerate() {
        for (j, second) in all.iter().enumerate() {
            assert_eq!(first.precedes(second), i < j);
            assert_eq!(first < second, i < j);
            assert_eq!(first == second, i == j);
            assert_eq!(first.cmp(second), i.cmp(&j));
        }
    }
}
