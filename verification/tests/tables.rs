use erc20_token::address::Address;
use erc20_token::amount::Amount;
use erc20_token::table::{Table, TableKey};

fn account(tag: u8) -> Address {
    Address::Account([tag; 32])
}

fn units(value: u64) -> Amount {
    Amount::from_u64(value)
}

#[test]
fn a_new_table_holds_nothing() {
    let table: Table<Address> = Table::new();
    assert!(!table.holds(&account(1)));
    assert_eq!(table.get(&account(1)), Amount::zero());
}

#[test]
fn set_then_get() {
    let mut table: Table<Address> = Table::new();
    table.set(account(1), units(10));
    table.set(account(2), units(20));
    assert_eq!(table.get(&account(1)), units(10));
    assert_eq!(table.get(&account(2)), units(20));
    assert_eq!(table.get(&account(3)), Amount::zero());
    assert!(table.holds(&account(1)));
    assert!(table.holds(&account(2)));
    assert!(!table.holds(&account(3)));
}

#[test]
fn set_overwrites() {
    let mut table: Table<Address> = Table::new();
    table.set(account(1), units(10));
    table.set(account(2), units(20));
    table.set(account(1), units(11));
    assert_eq!(table.get(&account(1)), units(11));
    assert_eq!(table.get(&account(2)), units(20));
}

#[test]
fn zero_makes_no_entry_but_stays_in_one() {
    let mut table: Table<Address> = Table::new();
    table.set(account(1), Amount::zero());
    assert!(!table.holds(&account(1)));
    table.set(account(1), units(5));
    assert!(table.holds(&account(1)));
    table.set(account(1), Amount::zero());
    assert!(table.holds(&account(1)));
    assert_eq!(table.get(&account(1)), Amount::zero());
}

#[test]
fn pairs_are_keys_in_their_order() {
    let mut table: Table<(Address, Address)> = Table::new();
    table.set((account(1), account(2)), units(7));
    assert_eq!(table.get(&(account(1), account(2))), units(7));
    assert_eq!(table.get(&(account(2), account(1))), Amount::zero());
    assert!(!table.holds(&(account(2), account(1))));
}

#[test]
fn from_entries_keeps_every_entry() {
    let entries: Vec<(Address, Amount)> = vec![
        (account(1), units(1)),
        (account(2), Amount::zero()),
        (account(1), units(3)),
    ];
    let table: Table<Address> = Table::from_entries(&entries);
    assert_eq!(table.get(&account(1)), units(3));
    assert!(table.holds(&account(2)));
    assert_eq!(table.get(&account(2)), Amount::zero());
    assert!(!table.holds(&account(3)));
}

#[test]
fn keys_are_the_same_when_they_are_equal() {
    assert!(account(1).same_key(&account(1)));
    assert!(!account(1).same_key(&account(2)));
    assert!(!account(1).same_key(&Address::Contract([1; 32])));
    assert!((account(1), account(2)).same_key(&(account(1), account(2))));
    assert!(!(account(1), account(2)).same_key(&(account(1), account(3))));
    assert!(!(account(1), account(2)).same_key(&(account(2), account(2))));
}
