//! Verified core of the StellarSpend payment contracts: a multisig transfer
//! engine over an overflow-safe balance ledger, together with the shared error
//! catalogue and input validation rules.

pub mod account;
pub mod analytics;
pub mod balances;
pub mod errors;
pub mod fees;
pub mod keyed_map;
pub mod laws;
pub mod ledger;
pub mod multisig;
pub mod pausable;
pub mod pending;
pub mod rate_limit;
pub mod registry;
pub mod simulation;
pub mod token_mint;
pub mod transactions;
pub mod utils;
