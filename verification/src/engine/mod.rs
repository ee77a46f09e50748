//! The engine: configuration, conflicts, credentials and health.
pub mod config;
pub mod conflict_resolver;
pub mod auth;
pub mod health;
pub mod sync_manager;
pub mod retry;
