//! A configuration snapshot kept in step with its file: a store that
//! publishes whole snapshots, and the decisions of the watcher that reloads
//! the file when it changes.

pub mod config;
pub mod store;
pub mod watcher;
