//! The background daemon: its schedule, scheduler and process control.
pub mod schedule;
pub mod scheduler;
pub mod service;
