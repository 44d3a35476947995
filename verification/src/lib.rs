//! Deterministic ledger core of an account-based token service: accounts with
//! available and frozen balances, role sets, an escrow protocol and a
//! time-bounded compensation of earlier operations.

pub mod error;
pub mod keys;
pub mod laws;
pub mod ledger;
pub mod table;
pub mod transactions;
pub mod wallet;
