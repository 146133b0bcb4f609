//! A typed client library for a relationship-based authorization service.
//!
//! The crate provides the request model and mutation builders for
//! relationship tuples, relationship filters and preconditions, readers that
//! normalize response envelopes, the credential handling for the transport
//! interceptor, and a unified error taxonomy.

pub mod error;
pub mod types;
pub mod filter;
pub mod relationship;
pub mod request;
pub mod reader;
pub mod client;
