//! Credential handling for a desktop client: a two-tier token lookup
//! (OS keychain first, then a fallback file), strict token-format
//! validation, and the store/delete paths that keep the two tiers
//! consistent.

pub mod auth;
pub mod fallback;
pub mod keychain;
pub mod engine;
pub mod resolver;
