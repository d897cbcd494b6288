//! Accounting core of a crowdfunding platform.
//!
//! Two components share one fungible asset. The ledger (`token`) tracks
//! per-identity balances and the total supply, with admin-gated issuance and
//! authorization-gated transfers over checked arithmetic. The registry
//! (`pools`) manages the lifecycle of crowdfunding pools: sequential
//! identifier allocation, input validation, an administrative pause switch,
//! contribution escrow, and goal resolution.
//!
//! The host environment around this core — its persistent key-value store,
//! its authorization oracle, event emission, and entry-point dispatch — is
//! kept outside. State is threaded explicitly: each component is a plain
//! struct that a host loads, calls, and stores within one atomic call
//! boundary. Identities are abstract `u64` handles; the oracle's verdict is
//! handed in as the set of identities that authorized the current call.

pub mod auth;
pub mod errors;
pub mod pools;
pub mod records;
pub mod token;
