//! The library's error type.
use vstd::prelude::*;

use crate::text::{concat2, concat3};

verus! {

/// What can go wrong in an operation of the library.
#[derive(Debug, Clone, PartialEq, Eq)]
pub enum MultiGitError {
    /// Configuration could not be located, read or written.
    Config(String),
    /// A named remote is not configured.
    RemoteNotFound(String),
    /// Credentials for a provider were refused or could not be found.
    Auth { provider: String, message: String },
    /// The background daemon could not be controlled.
    Daemon(String),
    /// Conflicting histories across remotes.
    Conflict(String),
    /// A provider could not be reached.
    Network(String),
    /// MultiGit was already set up here.
    AlreadyInitialized,
    /// Any other failure, with its message.
    Other(String),
}

/// The text that describes an error.
pub open spec fn error_message(e: MultiGitError) -> Seq<char> {
    match e {
        MultiGitError::Config(m) => "Configuration error: "@ + m@,
        MultiGitError::RemoteNotFound(n) => "Remote not found: "@ + n@,
        MultiGitError::Auth { provider, message } => "Authentication failed for "@ + provider@
            + ": "@ + message@,
        MultiGitError::Daemon(m) => "Daemon error: "@ + m@,
        MultiGitError::Conflict(m) => "Conflict detected: "@ + m@,
        MultiGitError::Network(m) => "Network error: "@ + m@,
        MultiGitError::AlreadyInitialized => "MultiGit is already initialized in this directory"@,
        MultiGitError::Other(m) => m@,
    }
}

impl MultiGitError {
    /// The text that describes this error.
    pub fn to_string(&self) -> (r: String)
        ensures
            r@ == error_message(*self),
    {
        match self {
            MultiGitError::Config(m) => concat2("Configuration error: ", m.as_str()),
            MultiGitError::RemoteNotFound(n) => concat2("Remote not found: ", n.as_str()),
            MultiGitError::Auth { provider, message } => {
                let mut r = concat3("Authentication failed for ", provider.as_str(), ": ");
                r.append(message.as_str());
                r
            },
            MultiGitError::Daemon(m) => concat2("Daemon error: ", m.as_str()),
            MultiGitError::Conflict(m) => concat2("Conflict detected: ", m.as_str()),
            MultiGitError::Network(m) => concat2("Network error: ", m.as_str()),
            MultiGitError::AlreadyInitialized => crate::text::owned(
                "MultiGit is already initialized in this directory",
            ),
            MultiGitError::Other(m) => m.clone(),
        }
    }
}

} // verus!
