//! A message store keyed by channel and message identifiers: request
//! defaulting, the statements sent to the wide-column store, the semantics of
//! those statements over an in-memory table, schema bootstrap, and the mapping
//! of stored rows to response records.

pub mod message;
pub mod error;
pub mod row;
pub mod listing;
pub mod table;
pub mod reply;
pub mod statements;
pub mod schema;
pub mod seed;
pub mod service;
pub mod laws;
