//! Verified core of a blockchain block indexer.
//!
//! The crate ingests a canonical, append-mostly chain of blocks from a remote
//! node, reconciles it against chain reorganizations, computes per-block
//! statistics, and maintains a consistent local copy of the chain together
//! with a wake signal for downstream consumers.  Every operation on the local
//! chain is proved to preserve the chain invariants: contiguous heights,
//! parent-hash linkage, unique hashes, and a cursor that always points at the
//! stored tip.
//!
//! All I/O (the node RPC connection, the durable store, the HTTP surface)
//! lives outside this crate; the library works on plain values that the
//! surrounding process hands in and takes back.

pub mod chain;
pub mod configure;
pub mod constant;
pub mod cursor;
pub mod dto;
pub mod error;
pub mod indexer;
pub mod notify;
pub mod reorg;
pub mod stats;
pub mod store;
