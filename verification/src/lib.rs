//! A toy transaction engine: deposits, withdrawals, disputes, resolutions and
//! chargebacks applied to per-client balances, with every rule of the ledger
//! stated as a contract and proved.

pub mod accounting;
