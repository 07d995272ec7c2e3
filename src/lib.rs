//! A client-side layer for issuing SQL statements to a database endpoint.
//!
//! The library frames statement lists into request bodies, checks and decodes
//! response arrays, derives `execute` and `transaction` from a backend's
//! `batch`, and selects a backend kind from a configuration record.

pub mod statement;
pub mod error;
pub mod codec;
pub mod client;
pub mod backend;
pub mod laws;
