//! Authority-gated addressable buffer service.
//!
//! The core lets a caller deterministically derive a storage slot's address
//! from an authority's identity and a numeric seed, provision that slot with a
//! fixed capacity on a ledger, and overwrite the slot's contents only when the
//! caller proves ownership of the deriving authority.

pub mod address;
pub mod derive;
pub mod error;
pub mod instruction;
pub mod ledger;
pub mod processor;
pub mod slot;
