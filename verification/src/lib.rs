//! Authentication and session core for a cookie-based note service.
//!
//! The crate provides the slot-indexed stores that hold users, notes and
//! sessions, the token codec that signs and checks session tokens, the
//! session lifecycle rules, the request-authentication pipeline decisions,
//! and the mapper that turns internal errors into client-safe codes.

pub mod store;
pub mod error;
pub mod context;
pub mod sessions;
pub mod users;
pub mod notes;
pub mod settings;
pub mod token;
pub mod auth;
pub mod database;
