//! Signed-request client for the OVH cloud API.
//!
//! The crate resolves an endpoint identifier to a base URL, holds the
//! application credentials, and computes for each request the signature
//! and header set that the server checks: a SHA-1 hash binding the
//! application secret, the consumer key, the HTTP method, the full URL,
//! the exact request body and a server-synchronized timestamp.

pub mod client;
pub mod conf;
pub mod endpoints;
pub mod headers;
pub mod numstr;
pub mod signing;
