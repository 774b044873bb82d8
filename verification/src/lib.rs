//! Client-side preparation of a token transfer against a registry: choosing the
//! unlocked holdings of an instrument among a party's active contracts,
//! assembling the transfer request with its validity window, and interpreting
//! the registry's reply.
//!
//! Every function here is pure. The network round trips live with the caller,
//! which hands this crate plain values and receives plain values back.

pub mod value;
pub mod holding;
pub mod transfer;
pub mod transfer_factory;
pub mod ledger;
pub mod workflow;
