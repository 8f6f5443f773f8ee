//! Credential verification for a social-posting API.
//!
//! The core of the crate is the bearer-token verification subsystem: a cached
//! set of an identity provider's public signing keys (`keys`), a token
//! verifier that checks a credential's signature and claims against that
//! cache (`token`), and a request gate that turns verification outcomes into
//! allow/deny decisions (`gate`). Around it stand the error taxonomy
//! (`error`), configuration (`config`), request/response data types (`dto`),
//! the storage-free post rules (`posts`), and an in-memory user store with
//! the user-facing account operations (`users`).

pub mod config;
pub mod dto;
pub mod error;
pub mod gate;
pub mod keys;
pub mod posts;
pub mod token;
pub mod users;
