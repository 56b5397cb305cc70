//! Session-token checks and the request guard built on them.
pub mod jwt;
pub mod auth;
pub mod middleware;
