//! Configuration and key/value projection model for a periodic, incremental
//! table-to-cache synchronizer.
//!
//! The library describes how a relational table is polled incrementally
//! (cursor policy, query materialization), how fetched rows are projected
//! into key/value pairs through placeholder templates, and how the whole
//! configuration is validated and exchanged as a structured document.

pub mod codec;
pub mod config;
pub mod errors;
pub mod projection;
pub mod query;
pub mod template;
pub mod text;
