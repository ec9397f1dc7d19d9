//! Relay for the OAuth 2.0 authorization-code flow with PKCE.
//!
//! The relay hands out authorization URLs, remembers each pending
//! authorization under its state token, and decides how a completion
//! request proceeds. Network and process I/O stay with the caller.

pub mod clock;
pub mod config;
pub mod decimal;
pub mod error;
pub mod handlers;
pub mod link;
pub mod middleware;
pub mod models;
pub mod oauth;
pub mod pkce;
pub mod store;
