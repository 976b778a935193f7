//! Verified core of a small vector-search pipeline.
//!
//! A caller submits a tenant-scoped text query; the pipeline obtains an
//! embedding for the text from a remote provider, runs a similarity search
//! against a named collection of a vector store, and returns ranked results.
//! This crate holds the decision logic of that pipeline — input validation,
//! the per-request state machine, the error taxonomy and its HTTP mapping,
//! and a reference model of the store's collection and search contracts —
//! all verified. The network edges (the HTTP server, the embedding provider
//! call, the vector-database client) live outside the library and drive it
//! with plain values.

pub mod errors;
pub mod model;
pub mod orchestrator;
pub mod store;
