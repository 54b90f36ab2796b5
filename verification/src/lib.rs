//! The extended-query engine of a PostgreSQL client, without the I/O.
//!
//! Requests are built as wire frames in a caller-supplied buffer; responses
//! are consumed one backend message at a time by small state machines that
//! say what to do next. Sending and receiving are left to the caller.

pub mod error;
pub mod message;
pub mod prepare;
pub mod query;
pub mod statement;
pub mod types;
pub mod wire;
