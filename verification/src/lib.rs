//! A verified core for a ledger transaction indexer.
//!
//! The crate decodes marketplace domain records out of generic on-chain
//! transaction data and plans their resilient, chunked persistence.

pub mod database;
pub mod json;
pub mod marketplace;
pub mod processors;
pub mod progress;
pub mod runtime;
pub mod store;
pub mod transactions;
