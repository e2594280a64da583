//! An access-controlled game-state registry: a roster of players with their
//! collectible inventories, an owner-managed allow-list gating privileged
//! operations, and a validator that accepts or rejects batches of
//! fee-sponsorship grant requests against that allow-list.

pub mod contract;
pub mod cwfees;
pub mod error;
pub mod laws;
pub mod msg;
pub mod state;

pub use crate::error::ContractError;
