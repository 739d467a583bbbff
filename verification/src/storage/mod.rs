//! What the database stores, and what is made of it when it is read.
//!
//! Timestamps are stored as unix milliseconds, and poll ids, units and
//! rollover kinds as text. `quota_snapshot` rows are the normalized, queryable
//! history the TUI's charts read.

pub mod downsample;
pub mod laws;
pub mod queries;
pub mod rows;

pub use downsample::{history, MAX_HISTORY_POINTS};
pub use rows::StorageError;
