//! A bb8 connection manager for embedded SurrealDB datastores.
//!
//! The manager knows where to open a datastore (in memory, in a file, or on
//! a TiKV cluster) and which session every connection carries. Opening the
//! datastore and running the liveness query are asynchronous engine calls;
//! this crate decides everything around them.

pub mod engine;
pub mod manager;
pub mod target;

pub use manager::{Connection, SurrealdbConnectionManager, VALIDATION_QUERY};
pub use target::ConnectionType;
