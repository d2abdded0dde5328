//! A short-link registry: it maps long URLs to short alphanumeric codes,
//! resolves codes back to URLs, and deletes links given a bearer token.
//!
//! The heart of the library is the create protocol of [`registry`]: an
//! optimistic-concurrency scheme that relies on the storage layer's
//! uniqueness constraint on the code column as the sole arbiter of races,
//! with a single conflict-recovery re-read and no locks. [`store`] holds an
//! in-memory backend whose contract is the capability every backend must
//! provide; [`protocol`] states the same create protocol as a step machine
//! for callers that drive an external database.

pub mod api;
pub mod auth;
pub mod codes;
pub mod config;
pub mod errors;
pub mod protocol;
pub mod registry;
pub mod store;
pub mod strutil;
pub mod urlcheck;
