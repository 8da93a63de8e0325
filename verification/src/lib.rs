//! A rental ledger for a small fleet: accounts with a cash balance, cars with
//! an availability state, and rental records that debit an account while a car
//! is reserved.

pub mod accounts;
pub mod contract;
pub mod engine;
pub mod error;
pub mod fleet;
pub mod laws;
pub mod msg;
pub mod rentals;
pub mod response;
pub mod state;
