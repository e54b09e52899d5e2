//! Recovery of group-session key material from a sled-backed crypto store.
//!
//! The library locates the collection of pickled inbound group sessions
//! inside a sled database, transparently decrypts each entry when the store
//! carries a store-wide cipher, rebuilds a live session from every snapshot
//! and exports a portable key record from it, isolating per-entry failures
//! so that one corrupt record never aborts the whole batch.  The recovered
//! records are grouped by room into an output document together with a
//! structured report of every failure.

pub mod aggregate;
pub mod cipher;
pub mod codec;
pub mod data;
pub mod extract;
pub mod session;
pub mod storedb;
pub mod strutil;
