//! Accounting core of an on-chain custodial vault.
//!
//! The crate models the rules that decide whether a deposit or a withdrawal
//! is admissible, how per-vault and per-depositor ledgers evolve, how the
//! records' storage addresses are derived and re-checked, and how a raw
//! instruction buffer is decoded into a typed operation.  Every state
//! transition is all-or-nothing: on any error the records and balances
//! handed to it are left exactly as they were.

pub mod address;
pub mod aggregate;
pub mod codec;
pub mod errors;
pub mod operations;
pub mod settings;
pub mod state;
