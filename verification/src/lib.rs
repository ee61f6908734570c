//! Verified core of a single-endpoint query gateway.
//!
//! The gateway accepts one kind of HTTP request, forwards the decoded query
//! to a long-lived execution engine, and returns the engine's answer as
//! JSON.  This crate holds the decision logic of that shell: the startup
//! ordering (observability first, then the schema text, then the engine,
//! then serving), the write-once ownership of the schema text, the
//! composition of the observability pipeline as data, the CORS policy for
//! the one trusted origin, and the mapping from engine outcomes to HTTP
//! replies, including the error taxonomy.  The host process performs the
//! I/O around it: reading the manifest file, installing the subscriber,
//! running the accept loop, and awaiting the engine.

pub mod bootstrap;
pub mod config;
pub mod cors;
pub mod dispatch;
pub mod engine;
pub mod json;
pub mod manifest;
pub mod observability;
