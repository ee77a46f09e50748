use multigit::models::config::{AuthBackend, DaemonConfig, SecurityConfig, Settings, SyncConfig, SyncStrategy};
use multigit::models::remote::{Protocol, ProviderType, RateLimit, Remote};
use multigit::models::repository::{LocalRepo, RepoConfig, Repository};
use multigit::models::sync_state::{
    Conflict, ConflictType, PushResult, RemoteState, RemoteSyncStatus, SyncState, SyncStatus,
};

#[test]
fn test_settings_default() {
    let settings = Settings::default();
    assert_eq!(settings.default_branch, "main");
    assert!(settings.parallel_push);
    assert_eq!(settings.max_parallel, 4);
}

#[test]
fn test_sync_strategy_display() {
    assert_eq!(SyncStrategy::FastForward.to_string(), "fast-forward");
    assert_eq!(SyncStrategy::Merge.to_string(), "merge");
}

#[test]
fn test_auth_backend() {
    assert_eq!(AuthBackend::Keyring.to_string(), "keyring");
    assert_eq!(AuthBackend::EncryptedFile.to_string(), "encrypted-file");
}

#[test]
fn test_sync_config_default() {
    let config = SyncConfig::default();
    assert!(!config.auto_sync);
    assert_eq!(config.strategy, SyncStrategy::FastForward);
    assert!(config.detect_conflicts);
}

#[test]
fn sync_strategy_names_all_variants() {
    assert_eq!(SyncStrategy::Rebase.to_string(), "rebase");
    assert_eq!(SyncStrategy::Force.to_string(), "force");
    assert_eq!(AuthBackend::Environment.to_string(), "environment");
}

#[test]
fn security_and_daemon_defaults() {
    let s = SecurityConfig::default();
    assert_eq!(s.auth_backend, AuthBackend::Keyring);
    assert!(!s.audit_log);
    assert!(s.ssh_agent);
    let d = DaemonConfig::default();
    assert!(!d.enabled);
    assert_eq!(d.interval_seconds, 0);
}

#[test]
fn test_remote_creation() {
    let remote = Remote::new("github", ProviderType::GitHub, "testuser");
    assert_eq!(remote.name, "github");
    assert_eq!(remote.provider, ProviderType::GitHub);
    assert_eq!(remote.username, "testuser");
    assert!(remote.enabled);
    assert!(!remote.use_ssh);
}

#[test]
fn test_remote_builder() {
    let remote = Remote::new("gitlab", ProviderType::GitLab, "user")
        .with_ssh()
        .with_priority(10);
    assert!(remote.use_ssh);
    assert_eq!(remote.priority, 10);
}

#[test]
fn remote_disabled_and_api_url() {
    let remote = Remote::new("gitea", ProviderType::Gitea, "u")
        .with_api_url("https://git.example.com")
        .disabled();
    assert!(!remote.enabled);
    assert_eq!(remote.api_url, Some("https://git.example.com".to_string()));
}

#[test]
fn test_git_remote_name() {
    let remote = Remote::new("github", ProviderType::GitHub, "user");
    assert_eq!(remote.git_remote_name(), "multigit-github");
}

#[test]
fn test_provider_type_parsing() {
    assert_eq!("github".parse::<ProviderType>().unwrap(), ProviderType::GitHub);
    assert_eq!("GitLab".parse::<ProviderType>().unwrap(), ProviderType::GitLab);
    assert!("invalid".parse::<ProviderType>().is_err());
}

#[test]
fn provider_parse_error_names_input() {
    assert_eq!(
        ProviderType::parse_name("Nope").unwrap_err(),
        "Unknown provider: Nope"
    );
    assert_eq!(ProviderType::parse_name("FORGEJO").unwrap(), ProviderType::Forgejo);
}

#[test]
fn test_provider_urls() {
    let github = ProviderType::GitHub;
    let https = github.https_url_template("user", "repo", None);
    assert_eq!(https, "https://github.com/user/repo.git");
    let ssh = github.ssh_url_template("user", "repo", None);
    assert_eq!(ssh, "git@github.com:user/repo.git");
}

#[test]
fn test_self_hosted_urls() {
    let gitea = ProviderType::Gitea;
    let https = gitea.https_url_template("user", "repo", Some("https://git.example.com"));
    assert_eq!(https, "https://git.example.com/user/repo.git");
}

#[test]
fn self_hosted_ssh_takes_host_of_api_url() {
    let gitea = ProviderType::Gitea;
    let ssh = gitea.ssh_url_template("user", "repo", Some("https://git.example.com/api"));
    assert_eq!(ssh, "git@git.example.com:user/repo.git");
    let fallback = ProviderType::Forgejo.ssh_url_template("user", "repo", None);
    assert_eq!(fallback, "git@localhost:user/repo.git");
    let https = ProviderType::Forgejo.https_url_template("user", "repo", None);
    assert_eq!(https, "https://localhost/user/repo.git");
}

#[test]
fn provider_names_and_api_urls() {
    assert_eq!(ProviderType::GitHub.display_name(), "GitHub");
    assert_eq!(ProviderType::Bitbucket.to_string(), "Bitbucket");
    assert_eq!(ProviderType::GitHub.default_api_url(), "https://api.github.com");
    assert!(ProviderType::Gitea.is_self_hosted());
    assert!(!ProviderType::Codeberg.is_self_hosted());
    assert_eq!(Protocol::Ssh.to_string(), "SSH");
}

#[test]
fn test_rate_limit() {
    let rate_limit = RateLimit {
        limit: 5000,
        remaining: 100,
        reset_at: multigit::clock::now_millis() + 3_600_000,
    };
    assert!(rate_limit.is_low());
    assert!(!rate_limit.is_exceeded());
    assert!(rate_limit.time_until_reset() > 0);
}

#[test]
fn rate_limit_reset_from_given_time() {
    let r = RateLimit { limit: 10, remaining: 0, reset_at: 5_000 };
    assert!(r.is_exceeded());
    assert_eq!(r.time_until_reset_from(2_000), 3_000);
}

#[test]
fn test_repository_creation() {
    let repo = Repository::new(
        "test-repo",
        "https://github.com/user/test-repo.git",
        "git@github.com:user/test-repo.git",
        false,
        "main",
    );
    assert_eq!(repo.name, "test-repo");
    assert_eq!(repo.default_branch, "main");
    assert!(!repo.private);
}

#[test]
fn test_repository_builder() {
    let repo = Repository::new("test", "https://example.com", "git@example.com", true, "main")
        .with_full_name("owner/test")
        .with_description("Test repository")
        .with_html_url("https://example.com/owner/test");
    assert_eq!(repo.full_name, Some("owner/test".to_string()));
    assert_eq!(repo.description, Some("Test repository".to_string()));
    assert!(repo.private);
}

#[test]
fn test_repo_config() {
    let config = RepoConfig::new("my-repo")
        .private()
        .with_description("My awesome project")
        .with_branch("develop")
        .auto_init();
    assert_eq!(config.name, "my-repo");
    assert!(config.private);
    assert_eq!(config.default_branch, "develop");
    assert!(config.auto_init);
}

#[test]
fn test_local_repo() {
    let local = LocalRepo::new("/tmp/repo");
    assert!(local.is_clean);
    assert!(local.is_synced());
    assert!(!local.has_changes());
}

#[test]
fn test_sync_state_creation() {
    let state = SyncState::new("/repo", "main");
    assert_eq!(state.repo_path, "/repo");
    assert_eq!(state.current_branch, "main");
    assert!(!state.has_conflicts());
}

#[test]
fn test_remote_state() {
    let mut state = RemoteState::new("github");
    assert!(!state.is_synced());
    state.mark_synced();
    assert!(state.is_synced());
    assert_eq!(state.status, RemoteSyncStatus::Synced);
}

#[test]
fn remote_state_error_keeps_message() {
    let mut state = RemoteState::new("gitlab");
    state.mark_error("boom");
    assert_eq!(state.status, RemoteSyncStatus::Error);
    assert_eq!(state.error_message, Some("boom".to_string()));
    assert!(!state.is_synced());
}

#[test]
fn test_conflict_creation() {
    let conflict = Conflict::new(
        ConflictType::DivergentBranches,
        vec!["github".to_string(), "gitlab".to_string()],
        "main",
        "Branches have diverged",
    )
    .with_suggestion("Manually resolve and force push");
    assert_eq!(conflict.conflict_type, ConflictType::DivergentBranches);
    assert_eq!(conflict.remotes.len(), 2);
    assert!(conflict.suggested_resolution.is_some());
}

#[test]
fn test_push_result() {
    let result = PushResult::success("github", 5).with_duration(std::time::Duration::from_secs(2));
    assert!(result.success);
    assert_eq!(result.commits_pushed, 5);
    assert!(result.duration.is_some());
}

#[test]
fn push_failure_keeps_message() {
    let result = PushResult::failure("gitlab", "rejected");
    assert!(!result.success);
    assert_eq!(result.message, "rejected");
    assert_eq!(result.commits_pushed, 0);
}

#[test]
fn test_sync_state_status() {
    let mut state = SyncState::new("/repo", "main");
    let mut remote1 = RemoteState::new("github");
    remote1.mark_synced();
    state.add_remote("github", remote1);
    state.update_status();
    assert_eq!(state.status, SyncStatus::Synced);

    let mut remote2 = RemoteState::new("gitlab");
    remote2.ahead = 2;
    remote2.status = RemoteSyncStatus::Dirty;
    state.add_remote("gitlab", remote2);
    state.update_status();
    assert_eq!(state.status, SyncStatus::Dirty);
}

#[test]
fn sync_state_error_and_out_of_sync() {
    let mut state = SyncState::new("/repo", "main");
    let mut a = RemoteState::new("github");
    a.mark_synced();
    state.add_remote("github", a);
    let mut b = RemoteState::new("gitlab");
    b.mark_error("down");
    state.add_remote("gitlab", b);
    state.update_status();
    assert_eq!(state.status, SyncStatus::Error);
    assert!(!state.is_fully_synced());
    assert_eq!(state.out_of_sync_remotes(), vec!["gitlab".to_string()]);
}

#[test]
fn status_texts() {
    assert_eq!(SyncStatus::Synced.to_string(), "synced");
    assert_eq!(RemoteSyncStatus::Dirty.to_string(), "dirty");
    assert_eq!(ConflictType::DivergentBranches.to_string(), "divergent-branches");
}
