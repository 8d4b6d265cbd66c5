//! What a client of the index site is configured with.

pub mod auth;
pub mod client;
pub mod config;
pub mod proxy;
