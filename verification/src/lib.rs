//! A whitelist access-control library: a stored list of admin identities with
//! a one-way mutability flag, gating who may relay opaque commands on the
//! list's behalf and who may change the list itself.
//!
//! The state machine is exact: each operation's contract says on which inputs
//! it succeeds, which error it returns otherwise, and how the stored record
//! changes. The surrounding host concerns — durable storage, address
//! validation, message encoding — are injected as plain values, so the whole
//! decision logic is verified here.

pub mod contract;
pub mod error;
pub mod laws;
pub mod msg;
pub mod state;
pub mod store;
pub mod whitelist;
pub mod whitelist_helper;

pub use crate::error::ContractError;
