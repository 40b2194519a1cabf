//! The accounting core: amounts and identifiers, transactions, and the
//! per-client balance state machine with its registry.

pub mod common;
pub mod transaction;
pub mod ledger;
pub mod atm;
pub mod laws;
