//! A caching relay for a blockchain JSON-RPC node: two read-heavy methods are
//! answered from an in-memory cache kept fresh by a subscription feed, and
//! everything else passes through to the upstream node untouched.

pub mod cache;
pub mod codec;
pub mod json;
pub mod rpc;
pub mod types;
