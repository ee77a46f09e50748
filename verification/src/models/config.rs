//! Settings that shape how MultiGit behaves: general, sync, security and daemon.
use vstd::prelude::*;

use crate::text::owned;

verus! {

/// General settings.
pub struct Settings {
    /// Default branch to use for new operations.
    pub default_branch: String,
    /// Push to remotes in parallel.
    pub parallel_push: bool,
    /// Maximum number of parallel operations.
    pub max_parallel: usize,
    /// Colour the output.
    pub colored_output: bool,
    /// Verbosity level (0-3: error, warn, info, debug).
    pub verbosity: u8,
}

/// The default branch name.
pub fn default_branch() -> (r: String)
    ensures
        r@ == "main"@,
{
    owned("main")
}

/// The default for switches that are on unless configured off.
pub fn default_true() -> (r: bool)
    ensures
        r,
{
    true
}

/// The default number of parallel operations.
pub fn default_parallel() -> (r: usize)
    ensures
        r == 4,
{
    4
}

/// The default sync strategy.
pub fn default_strategy() -> (r: SyncStrategy)
    ensures
        r == SyncStrategy::FastForward,
{
    SyncStrategy::FastForward
}

/// The default authentication backend.
pub fn default_auth() -> (r: AuthBackend)
    ensures
        r == AuthBackend::Keyring,
{
    AuthBackend::Keyring
}

/// The default daemon interval, in seconds (five minutes).
pub fn default_interval() -> (r: u64)
    ensures
        r == 300,
{
    300
}

impl Default for Settings {
    fn default() -> (r: Self)
        ensures
            r.default_branch@ == "main"@,
            r.parallel_push,
            r.max_parallel == 4,
            r.colored_output,
            r.verbosity == 1,
    {
        Settings {
            default_branch: default_branch(),
            parallel_push: true,
            max_parallel: default_parallel(),
            colored_output: true,
            verbosity: 1,
        }
    }
}

/// How local and remote histories are reconciled.
#[derive(Debug, Clone, Copy, PartialEq, Eq, Structural)]
pub enum SyncStrategy {
    /// Only fast-forward (safest).
    FastForward,
    /// Allow merge commits.
    Merge,
    /// Rebase changes.
    Rebase,
    /// Force push (dangerous).
    Force,
}

impl Default for SyncStrategy {
    fn default() -> (r: Self)
        ensures
            r == SyncStrategy::FastForward,
    {
        SyncStrategy::FastForward
    }
}

/// The name a sync strategy is written as.
pub open spec fn sync_strategy_text(s: SyncStrategy) -> Seq<char> {
    match s {
        SyncStrategy::FastForward => "fast-forward"@,
        SyncStrategy::Merge => "merge"@,
        SyncStrategy::Rebase => "rebase"@,
        SyncStrategy::Force => "force"@,
    }
}

impl SyncStrategy {
    /// The name this strategy is written as.
    pub fn to_string(&self) -> (r: String)
        ensures
            r@ == sync_strategy_text(*self),
    {
        match self {
            SyncStrategy::FastForward => owned("fast-forward"),
            SyncStrategy::Merge => owned("merge"),
            SyncStrategy::Rebase => owned("rebase"),
            SyncStrategy::Force => owned("force"),
        }
    }
}

/// Synchronization settings.
pub struct SyncConfig {
    /// Synchronize automatically.
    pub auto_sync: bool,
    /// The remote that pulls come from.
    pub primary_source: Option<String>,
    /// How histories are reconciled.
    pub strategy: SyncStrategy,
    /// Branches to include (empty: all).
    pub include_branches: Vec<String>,
    /// Branches to leave out.
    pub exclude_branches: Vec<String>,
    /// Look for conflicts before syncing.
    pub detect_conflicts: bool,
    /// Resolve conflicts automatically where possible.
    pub auto_resolve: bool,
}

impl Default for SyncConfig {
    fn default() -> (r: Self)
        ensures
            !r.auto_sync,
            r.primary_source is None,
            r.strategy == SyncStrategy::FastForward,
            r.include_branches@.len() == 0,
            r.exclude_branches@.len() == 0,
            r.detect_conflicts,
            !r.auto_resolve,
    {
        SyncConfig {
            auto_sync: false,
            primary_source: None,
            strategy: default_strategy(),
            include_branches: Vec::new(),
            exclude_branches: Vec::new(),
            detect_conflicts: true,
            auto_resolve: false,
        }
    }
}

/// Where credentials are kept.
#[derive(Debug, Clone, Copy, PartialEq, Eq, Structural)]
pub enum AuthBackend {
    /// The operating system's keyring.
    Keyring,
    /// An encrypted file.
    EncryptedFile,
    /// Environment variables.
    Environment,
}

/// The name an authentication backend is written as.
pub open spec fn auth_backend_text(b: AuthBackend) -> Seq<char> {
    match b {
        AuthBackend::Keyring => "keyring"@,
        AuthBackend::EncryptedFile => "encrypted-file"@,
        AuthBackend::Environment => "environment"@,
    }
}

impl AuthBackend {
    /// The name this backend is written as.
    pub fn to_string(&self) -> (r: String)
        ensures
            r@ == auth_backend_text(*self),
    {
        match self {
            AuthBackend::Keyring => owned("keyring"),
            AuthBackend::EncryptedFile => owned("encrypted-file"),
            AuthBackend::Environment => owned("environment"),
        }
    }
}

/// Security and authentication settings.
pub struct SecurityConfig {
    /// Where credentials are kept.
    pub auth_backend: AuthBackend,
    /// Log sensitive operations.
    pub audit_log: bool,
    /// A custom encryption key file.
    pub encryption_key_path: Option<String>,
    /// Use the SSH agent.
    pub ssh_agent: bool,
}

impl Default for SecurityConfig {
    fn default() -> (r: Self)
        ensures
            r.auth_backend == AuthBackend::Keyring,
            !r.audit_log,
            r.encryption_key_path is None,
            r.ssh_agent,
    {
        SecurityConfig {
            auth_backend: default_auth(),
            audit_log: false,
            encryption_key_path: None,
            ssh_agent: true,
        }
    }
}

/// Background daemon settings.
pub struct DaemonConfig {
    /// Start the daemon on startup.
    pub enabled: bool,
    /// Sync interval, in seconds.
    pub interval_seconds: u64,
    /// Run in the background.
    pub background: bool,
    /// Log file.
    pub log_file: Option<String>,
    /// PID file.
    pub pid_file: Option<String>,
}

impl Default for DaemonConfig {
    /// Every field zero, off or absent (the per-field defaults apply only when reading
    /// a configuration file).
    fn default() -> (r: Self)
        ensures
            !r.enabled,
            r.interval_seconds == 0,
            !r.background,
            r.log_file is None,
            r.pid_file is None,
    {
        DaemonConfig {
            enabled: false,
            interval_seconds: 0,
            background: false,
            log_file: None,
            pid_file: None,
        }
    }
}

} // verus!
