//! Data models: settings, remotes, repositories and sync state.
pub mod config;
pub mod remote;
pub mod repository;
pub mod sync_state;
