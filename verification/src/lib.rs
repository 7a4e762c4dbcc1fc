//! Credential lifecycle and request authentication for a multi-tenant
//! storefront backend: password hashing and verification, issuance and
//! validation of signed time-bounded identity tokens, the bearer-header
//! gate that protects every request, bounded-retry startup sequencing for
//! the shared data-store connection, and the signup/login flows built on
//! those pieces.

pub mod bootstrap;
pub mod catalog;
pub mod credentials;
pub mod errors;
pub mod hashing;
pub mod middleware;
pub mod token;
