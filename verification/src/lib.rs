//! Decoding of property-graph query results into typed domain entities.
//!
//! The crate holds the pure part of a graph repository: the value model of
//! what a graph database returns, the decoders that turn a node into a
//! `Person` or a `Movie`, the binder for query parameters, and the state
//! machine that a driver loop follows while it runs one query.

pub mod config;
pub mod text;
pub mod value;
pub mod entities;
pub mod decoder;
pub mod params;
pub mod repository;
pub mod session;
pub mod schema;
