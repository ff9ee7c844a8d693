//! An in-memory user record store with unique, consecutively assigned
//! identifiers, and the request handlers that map store operations to
//! transport-neutral responses.
//!
//! A handler receives the store as `Some` when its guard was acquired and
//! `None` when acquiring it failed.
pub mod decimal;
pub mod handlers;
pub mod laws;
pub mod store;
