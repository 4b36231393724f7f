//! Metadata-lookup pipeline for a sharded bucket store: payload decoding,
//! shard/table resolution, result translation, and response assembly.
//!
//! The pipeline never performs I/O itself: the caller runs the query that
//! `get::get_sql` names and hands the rows (or the failure) back to
//! `get::action`, which always answers with a single well-formed protocol
//! message.
pub mod bucket;
pub mod error;
pub mod get;
pub mod json;
pub mod metrics;
pub mod sql;
pub mod types;
