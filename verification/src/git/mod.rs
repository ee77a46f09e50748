//! Git-facing logic: remote URLs.
pub mod url_utils;
pub mod remote_names;
