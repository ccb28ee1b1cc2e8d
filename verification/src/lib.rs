//! Request-handling core of a small ledger gateway.
//!
//! The gateway answers two kinds of HTTP queries: the on-chain state of one
//! account, fetched from a remote ledger node, and a search over a table of
//! recorded transactions. This crate holds the decisions of that pipeline as
//! verified functions on plain values; sockets, the connection pool and the
//! remote calls live with the caller.

pub mod address;
pub mod bridge;
pub mod filters;
pub mod handlers;
pub mod predicate;
pub mod response;
