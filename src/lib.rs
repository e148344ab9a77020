//! Authenticated query orchestration for virtual-machine inventory lookups
//! against a resource-graph API: token lifecycle, request building, response
//! classification, cache merging, paging and recovery from authentication
//! failures, each as verified logic that a thin driver feeds with the outcomes
//! of network, cache and credential-store operations.

pub mod error;
pub mod text;
pub mod vm;
pub mod query;
pub mod auth;
pub mod caching;
pub mod client;
pub mod orchestrator;
pub mod persistance;
pub mod cli;
pub mod credentials;

pub use auth::AuthTokens;
pub use client::Client;
