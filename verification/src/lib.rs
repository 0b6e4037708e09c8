//! A verified adapter that lets a generic pool-manager protocol drive trades
//! against a White Whale constant-product pool that speaks a different
//! message protocol.
//!
//! The library holds the adapter's decision logic: pair validation, quote
//! shaping, the swap orchestration that snapshots a balance and issues the
//! underlying trade instruction, the balance-assertion engine that enforces
//! the caller's slippage bound at the resumption point, and the version guard
//! for migrations. Host concerns (storage, chain queries, message dispatch)
//! stay outside; every operation here is a function from the adapter's
//! explicit store and the data the host fetched to the next store, the
//! instruction to dispatch, and the response or error.

pub mod asset;
pub mod commands;
pub mod contract;
pub mod decimal;
pub mod error;
pub mod msg;
pub mod queries;
pub mod state;
pub mod version;
