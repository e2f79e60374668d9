//! An in-memory photo store: an append-only collection of photo records with
//! monotonically increasing identifiers and a closed category enumeration.
//! The store is the verified core behind a GraphQL photo API; the transport
//! layer lives outside this crate and drives the store through its public
//! operations.

pub mod console;
pub mod store;
