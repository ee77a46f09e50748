//! The command line's shape: global options and the commands with their arguments.
use vstd::prelude::*;

verus! {

/// Global options and the command to run.
#[derive(Debug)]
pub struct Cli {
    /// Logging verbosity (each `-v` adds one).
    pub verbose: u8,
    /// Suppress output.
    pub quiet: bool,
    /// Output format (`text` or `json`).
    pub format: String,
    /// The command.
    pub command: Commands,
}

/// The commands.
#[derive(Debug)]
pub enum Commands {
    /// Set MultiGit up for a repository.
    Init {
        /// Repository path.
        path: String,
    },
    /// Manage remotes.
    Remote {
        /// What to do.
        action: RemoteAction,
    },
    /// Push to all configured remotes.
    Push {
        /// Branch to push (the current one when absent).
        branch: Option<String>,
        /// Force push.
        force: bool,
        /// Only these remotes.
        remotes: Vec<String>,
    },
    /// Pull from the primary remote.
    Pull {
        /// Branch to pull (the current one when absent).
        branch: Option<String>,
        /// Remote to pull from.
        remote: Option<String>,
    },
    /// Synchronize across all remotes.
    Sync {
        /// Branch to sync (the current one when absent).
        branch: Option<String>,
        /// Only show what would be done.
        dry_run: bool,
    },
    /// Show sync status.
    Status {
        /// Show details.
        verbose: bool,
    },
    /// Manage conflicts.
    Conflict {
        /// What to do.
        action: ConflictAction,
    },
    /// Manage the background daemon.
    Daemon {
        /// What to do.
        action: DaemonAction,
    },
    /// Run diagnostics.
    Doctor {
        /// Try to fix what is found.
        fix: bool,
    },
}

/// What to do with remotes.
#[derive(Debug)]
pub enum RemoteAction {
    /// Add a remote.
    Add {
        /// Remote name.
        name: String,
        /// Provider type.
        provider: String,
        /// Username on the provider.
        username: String,
        /// API URL of a self-hosted instance.
        api_url: Option<String>,
        /// Use SSH instead of HTTPS.
        ssh: bool,
    },
    /// List the configured remotes.
    List {
        /// Show details.
        verbose: bool,
    },
    /// Remove a remote.
    Remove {
        /// Remote name.
        name: String,
    },
    /// Change a remote's configuration.
    Update {
        /// Remote name.
        name: String,
        /// New username.
        username: Option<String>,
        /// New API URL.
        api_url: Option<String>,
    },
    /// Test the connection to one remote, or to all.
    Test {
        /// Remote name.
        name: Option<String>,
    },
}

/// What to do about conflicts.
#[derive(Debug)]
pub enum ConflictAction {
    /// List detected conflicts.
    List,
    /// Resolve conflicts.
    Resolve {
        /// Resolution strategy.
        strategy: String,
    },
}

/// What to do with the daemon.
#[derive(Debug)]
pub enum DaemonAction {
    /// Start it.
    Start {
        /// Sync interval in minutes.
        interval: u64,
    },
    /// Stop it.
    Stop,
    /// Show its status.
    Status,
    /// Show its log.
    Logs {
        /// How many lines.
        lines: usize,
    },
}

} // verus!
