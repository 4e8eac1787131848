//! A typed key-value store for small settings, persisted in one SQLite table.
//!
//! `KVStore` is a context object with a one-way lifecycle: it starts
//! uninitialized, and `init` (or `init_in_memory`) opens a database and installs
//! the connection. Every read and write goes through that connection; the
//! contents of the table are described by `engine::table_rows`.
use vstd::prelude::*;

pub mod record;
pub mod engine;
pub mod store;
pub mod laws;

pub use record::{KeyValue, KeyValueView};
pub use store::{KVStore, KvError};
