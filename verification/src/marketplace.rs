//! The marketplace domain: typed records decoded out of generic on-chain
//! events, table-item writes and entry-function call payloads.

pub mod bids;
pub mod collections;
pub mod offers;
pub mod orders;
pub mod utils;
