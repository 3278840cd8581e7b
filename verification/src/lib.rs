//! Article command and query core.
//!
//! Authenticated clients create, read, update, delete, list and favorite
//! short text articles.  This crate holds the verified core of that system:
//! payload validation, command dispatch against an in-memory store,
//! list/feed filtering with deterministic pagination, and the assembly of
//! viewer-relative responses (favorited flag, favorite count, follow flag).
//! Transport glue (HTTP routing, JSON encoding) lives outside the core and
//! talks to it through the plain values defined here.

pub mod client;
pub mod dispatch;
pub mod errors;
pub mod laws;
pub mod messages;
pub mod model;
pub mod query;
pub mod respond;
pub mod store;
pub mod validate;
