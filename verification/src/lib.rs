//! A fungible-token ledger: balances, allowances and a supply counter, with
//! every operation stated and proved against a mathematical model of the
//! ledger.

pub mod amount;
pub mod address;
pub mod accounting;
pub mod table;
pub mod error;
pub mod arguments;
pub mod state;
pub mod laws;
pub mod token;
pub mod contract;
