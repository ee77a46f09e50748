use multigit::engine::auth::{
    make_credential_key, make_legacy_key, token_env_var, AuthBackend, AuthManager, CredentialTable,
    CredentialTarget, Retrieval,
};
use multigit::engine::config::{path_join, Config, RemoteConfig};
use multigit::engine::conflict_resolver::{
    parse_strategy, BranchRelation, Conflict, ConflictResolver, PullPlan, Resolution,
    ResolutionStrategy,
};
use multigit::engine::health::{HealthReport, RemoteHealth};
use multigit::engine::sync_manager::{
    count_fetched, count_pushed, push_refspec, FetchResult, PushResult, SyncManager, SyncStatus,
};
use multigit::error::MultiGitError;

fn remote_config(user: &str, enabled: bool, provider: &str) -> RemoteConfig {
    RemoteConfig {
        username: user.to_string(),
        api_url: None,
        enabled,
        provider: Some(provider.to_string()),
        use_ssh: false,
        priority: 0,
    }
}

#[test]
fn test_config_default() {
    let config = Config::default();
    assert_eq!(config.settings.default_branch, "main");
    assert!(config.settings.parallel_push);
    assert_eq!(config.settings.max_parallel, 4);
}

#[test]
fn test_config_merge() {
    let mut config1 = Config::default();
    config1.settings.default_branch = "master".to_string();
    let mut config2 = Config::default();
    config2.settings.default_branch = "develop".to_string();
    config2.settings.max_parallel = 8;
    let merged = config1.merge(config2);
    assert_eq!(merged.settings.default_branch, "develop");
    assert_eq!(merged.settings.max_parallel, 8);
}

#[test]
fn merge_unites_remotes_later_wins() {
    let mut a = Config::default();
    a.add_remote("github".to_string(), remote_config("alice", true, "github"));
    a.add_remote("gitlab".to_string(), remote_config("alice", true, "gitlab"));
    let mut b = Config::default();
    b.add_remote("github".to_string(), remote_config("bob", false, "github"));
    let merged = a.merge(b);
    assert_eq!(merged.remotes.len(), 2);
    assert_eq!(merged.get_remote("github").unwrap().username, "bob");
    assert_eq!(merged.get_remote("gitlab").unwrap().username, "alice");
}

#[test]
fn layers_fall_back_to_default() {
    let c = Config::from_layers(None, None);
    assert_eq!(c.settings.default_branch, "main");
    let mut repo = Config::default();
    repo.settings.default_branch = "trunk".to_string();
    let c = Config::from_layers(Some(Config::default()), Some(repo));
    assert_eq!(c.settings.default_branch, "trunk");
}

#[test]
fn test_add_remove_remote() {
    let mut config = Config::default();
    config.add_remote("github".to_string(), remote_config("testuser", true, "github"));
    assert!(config.get_remote("github").is_some());
    config.remove_remote("github");
    assert!(config.get_remote("github").is_none());
}

#[test]
fn test_enabled_remotes() {
    let mut config = Config::default();
    config.add_remote("github".to_string(), remote_config("user1", true, "github"));
    config.add_remote("gitlab".to_string(), remote_config("user2", false, "gitlab"));
    let enabled_remotes = config.enabled_remotes();
    assert_eq!(enabled_remotes.len(), 1);
    assert!(enabled_remotes.contains_key("github"));
}

#[test]
fn config_paths() {
    assert_eq!(Config::repo_config_dir(), ".multigit");
    assert_eq!(Config::repo_config_path(), ".multigit/config.toml");
    assert_eq!(path_join("a/", "b"), "a/b");
    assert_eq!(path_join("a", "b"), "a/b");
    if let Ok(p) = Config::user_config_path() {
        assert!(p.ends_with("multigit/config.toml"));
    }
}

#[test]
fn set_primary_remote_lowercases_and_refuses_unknown() {
    let mut config = Config::default();
    config.add_remote("github".to_string(), remote_config("u", true, "github"));
    config.add_remote("gitlab".to_string(), remote_config("u", true, "gitlab"));
    assert_eq!(config.set_primary_remote("GitHub").unwrap(), "github");
    assert_eq!(config.sync.primary_source, Some("github".to_string()));
    let err = config.set_primary_remote("codeberg").unwrap_err();
    assert_eq!(
        err,
        MultiGitError::Other(
            "Remote 'codeberg' not found. Available remotes: github, gitlab".to_string()
        )
    );
}

#[test]
fn test_auth_manager_creation() {
    let manager = AuthManager::new(AuthBackend::Keyring, false);
    assert!(manager.has_keyring());
}

#[test]
fn test_env_var_credential() {
    let manager = AuthManager::new(AuthBackend::Environment, false);
    let table = CredentialTable::new();
    let result = manager.retrieve_credential(
        &table,
        "github",
        "github.com",
        "testuser",
        true,
        Some("test_token_123".to_string()),
    );
    match result {
        Ok(Retrieval::Found(found)) => assert_eq!(found.token, "test_token_123"),
        _ => panic!("expected the environment token"),
    }
    let result_no_env = manager.retrieve_credential(
        &table,
        "github",
        "github.com",
        "testuser",
        false,
        Some("test_token_123".to_string()),
    );
    assert!(result_no_env.is_err());
}

#[test]
fn token_variable_name() {
    assert_eq!(token_env_var("github"), "MULTIGIT_GITHUB_TOKEN");
    assert_eq!(make_credential_key("github", "github.com", "u"), "github:github.com:u");
    assert_eq!(make_legacy_key("github", "u"), "github:u");
}

#[test]
fn routing_errors_per_backend() {
    let env = AuthManager::new(AuthBackend::Environment, true);
    let mut table = CredentialTable::new();
    assert_eq!(
        env.store_credential(&mut table, "github", "github.com", "u", "t"),
        Err(MultiGitError::Other("Cannot store credentials in environment variables".to_string()))
    );
    assert_eq!(
        env.delete_credential(&mut table, "github", "github.com", "u"),
        Err(MultiGitError::Other("Cannot delete environment variables".to_string()))
    );
    let enc = AuthManager::new(AuthBackend::EncryptedFile, false);
    assert_eq!(
        enc.store_credential(&mut table, "github", "github.com", "u", "t"),
        Err(MultiGitError::Other("Encrypted store not initialized".to_string()))
    );
    let keyring = AuthManager::default();
    assert_eq!(
        keyring.store_credential(&mut table, "github", "github.com", "u", "t"),
        Ok(CredentialTarget::Keyring)
    );
    assert!(table.get("github:github.com:u").is_none());
}

#[test]
fn encrypted_store_round_trip() {
    let mut mgr = AuthManager::new(AuthBackend::EncryptedFile, false);
    mgr.init_encrypted_store("pass".to_string(), "/tmp/store".to_string());
    let mut table = CredentialTable::new();
    assert_eq!(
        mgr.store_credential(&mut table, "gitlab", "gitlab.com", "bob", "tok"),
        Ok(CredentialTarget::EncryptedFile)
    );
    match mgr.retrieve_credential(&table, "gitlab", "gitlab.com", "bob", false, None) {
        Ok(Retrieval::Found(found)) => {
            assert_eq!(found.token, "tok");
            assert!(found.migrated.is_none());
        }
        _ => panic!("expected the stored token"),
    }
    assert_eq!(
        mgr.remove_credential(&mut table, "gitlab", "gitlab.com", "bob"),
        Ok(CredentialTarget::EncryptedFile)
    );
    match mgr.retrieve_credential(&table, "gitlab", "gitlab.com", "bob", false, None) {
        Err(e) => assert_eq!(
            e,
            MultiGitError::Other("Credential not found: gitlab:gitlab.com:bob".to_string())
        ),
        _ => panic!("expected no token"),
    }
}

#[test]
fn legacy_credential_migrates() {
    let mut table = CredentialTable::new();
    table.set("github:alice".to_string(), "old".to_string());
    let found = table.retrieve("github", "github.com", "alice").unwrap();
    assert_eq!(found.token, "old");
    let moved = found.migrated.unwrap();
    assert_eq!(moved.get("github:github.com:alice"), Some("old".to_string()));
    assert_eq!(moved.get("github:alice"), None);
}

#[test]
fn keyring_backend_sends_lookup_to_keyring() {
    let mgr = AuthManager::new(AuthBackend::Keyring, false);
    let table = CredentialTable::new();
    assert!(matches!(
        mgr.retrieve_credential(&table, "github", "github.com", "u", true, None),
        Ok(Retrieval::FromKeyring)
    ));
}

#[test]
fn test_parse_strategy() {
    assert!(matches!(parse_strategy("ours").unwrap(), ResolutionStrategy::FastForwardOnly));
    assert!(matches!(parse_strategy("theirs").unwrap(), ResolutionStrategy::PreferRemote));
    assert!(matches!(parse_strategy("manual").unwrap(), ResolutionStrategy::Manual));
    assert!(matches!(parse_strategy("force").unwrap(), ResolutionStrategy::Force));
    assert!(parse_strategy("invalid").is_err());
}

#[test]
fn parse_strategy_error_text_and_aliases() {
    assert_eq!(
        parse_strategy("Nope").unwrap_err(),
        MultiGitError::Other(
            "Invalid strategy 'Nope'. Valid strategies: ours, theirs, primary, manual, force"
                .to_string()
        )
    );
    assert_eq!(parse_strategy("PRIMARY").unwrap(), ResolutionStrategy::PreferRemote);
    assert_eq!(parse_strategy("fast-forward").unwrap(), ResolutionStrategy::FastForwardOnly);
    assert_eq!(parse_strategy("local").unwrap(), ResolutionStrategy::FastForwardOnly);
    assert_eq!(parse_strategy("remote").unwrap(), ResolutionStrategy::PreferRemote);
}

#[test]
fn test_detect_conflict() {
    let resolver = ConflictResolver::default();
    assert!(resolver.detect_conflict(0, 0).is_none());
    assert!(resolver.detect_conflict(5, 0).is_none());
    assert!(resolver.detect_conflict(0, 3).is_none());
    let conflict = resolver.detect_conflict(2, 3);
    assert!(conflict.is_some());
    assert!(conflict.unwrap().diverged);
}

#[test]
fn test_resolve_fast_forward() {
    let resolver = ConflictResolver::new(ResolutionStrategy::FastForwardOnly);
    let conflict = Conflict::new("main".to_string(), 3, 0);
    assert_eq!(resolver.resolve(&conflict).unwrap(), Resolution::Push);
    let conflict = Conflict::new("main".to_string(), 0, 2);
    assert_eq!(resolver.resolve(&conflict).unwrap(), Resolution::Pull);
    let conflict = Conflict::new("main".to_string(), 2, 3);
    assert_eq!(resolver.resolve(&conflict).unwrap(), Resolution::RequiresManual);
}

#[test]
fn other_strategies_resolve() {
    let c = Conflict::new("main".to_string(), 2, 3);
    assert_eq!(
        ConflictResolver::new(ResolutionStrategy::PreferRemote).resolve(&c).unwrap(),
        Resolution::Pull
    );
    assert_eq!(
        ConflictResolver::new(ResolutionStrategy::Force).resolve(&c).unwrap(),
        Resolution::ForcePush
    );
    assert_eq!(
        ConflictResolver::new(ResolutionStrategy::Manual).resolve(&c).unwrap(),
        Resolution::RequiresManual
    );
    let in_sync = Conflict::new("main".to_string(), 0, 0);
    assert_eq!(
        ConflictResolver::new(ResolutionStrategy::FastForwardOnly).resolve(&in_sync).unwrap(),
        Resolution::NoAction
    );
}

#[test]
fn test_can_auto_resolve() {
    let resolver = ConflictResolver::new(ResolutionStrategy::FastForwardOnly);
    let conflict = Conflict::new("main".to_string(), 2, 0);
    assert!(resolver.can_auto_resolve(&conflict));
    let conflict = Conflict::new("main".to_string(), 2, 3);
    assert!(!resolver.can_auto_resolve(&conflict));
    assert!(!ConflictResolver::new(ResolutionStrategy::Manual).can_auto_resolve(&conflict));
}

#[test]
fn branch_relations_and_pull_plans() {
    assert_eq!(BranchRelation::classify(0, 0).label(), "✓ In sync");
    assert_eq!(BranchRelation::classify(1, 1).label(), "⚠ CONFLICT: Diverged");
    assert_eq!(BranchRelation::classify(2, 0).label(), "↑ Ahead");
    assert_eq!(BranchRelation::classify(0, 2).label(), "↓ Behind");
    assert_eq!(PullPlan::decide(0, 3), PullPlan::FastForward);
    assert_eq!(PullPlan::decide(1, 3), PullPlan::Diverged);
    assert_eq!(PullPlan::decide(2, 0), PullPlan::UpToDate);
}

fn remote_health(name: &str, reachable: bool) -> RemoteHealth {
    RemoteHealth {
        name: name.to_string(),
        url: format!("https://example.com/{name}.git"),
        reachable,
        issue: None,
    }
}

#[test]
fn test_health_check() {
    let report = HealthReport::from_checks(true, Some("main".to_string()), vec![remote_health("origin", true)]);
    assert!(report.repo_valid);
    assert!(report.working_dir_clean);
    assert!(report.current_branch.is_some());
    assert!(report.is_healthy());
}

#[test]
fn test_is_healthy() {
    let report = HealthReport::from_checks(true, Some("main".to_string()), vec![]);
    assert!(!report.is_healthy());
    assert_eq!(report.issues, vec!["No remotes configured".to_string()]);
    assert_eq!(
        report.recommendations,
        vec!["Add remotes with 'multigit remote add'".to_string()]
    );
}

#[test]
fn health_lists_every_problem_in_order() {
    let report = HealthReport::from_checks(
        false,
        None,
        vec![remote_health("a", false), remote_health("b", true), remote_health("c", false)],
    );
    assert_eq!(
        report.issues,
        vec![
            "Working directory has uncommitted changes".to_string(),
            "Cannot determine current branch (detached HEAD?)".to_string(),
            "2 remote(s) unreachable".to_string(),
        ]
    );
    assert_eq!(report.recommendations.len(), 3);
    assert_eq!(report.recommendations[2], "Check your network connection and remote URLs");
}

#[test]
fn test_sync_manager_creation() {
    let manager = SyncManager::new("/repo".to_string());
    assert_eq!(manager.max_parallel(), 4);
    assert_eq!(manager.workdir(), "/repo");
    let manager = manager.with_max_parallel(0);
    assert_eq!(manager.max_parallel(), 1);
}

#[test]
fn push_and_fetch_results() {
    assert_eq!(push_refspec("main"), "refs/heads/main:refs/heads/main");
    let ok = PushResult::from_outcome("github".to_string(), Ok(()), 12);
    assert!(ok.success);
    assert_eq!(ok.message, "Push successful");
    let bad = PushResult::from_outcome("gitlab".to_string(), Err("denied".to_string()), 3);
    assert_eq!(bad.message, "Push failed: denied");
    let unopened = PushResult::open_failed("x".to_string(), "gone", 0);
    assert_eq!(unopened.message, "Failed to open repo: gone");
    assert_eq!(count_pushed(&vec![ok, bad, unopened]), 1);
    let f = FetchResult::from_outcome("github".to_string(), Err("timeout".to_string()));
    assert_eq!(f.message, "Fetch failed: timeout");
    let g = FetchResult::from_outcome("gitlab".to_string(), Ok(()));
    assert_eq!(g.message, "Fetch successful");
    assert_eq!(count_fetched(&vec![f, g]), 1);
}

#[test]
fn sync_statuses_from_comparisons() {
    let remotes = vec!["github".to_string(), "gitlab".to_string(), "codeberg".to_string()];
    let statuses = SyncManager::get_sync_status(&remotes, &vec![Some((0, 0)), Some((2, 1)), None]);
    assert!(statuses[0].in_sync);
    assert_eq!((statuses[1].ahead, statuses[1].behind, statuses[1].in_sync), (2, 1, false));
    assert_eq!((statuses[2].ahead, statuses[2].behind, statuses[2].in_sync), (0, 0, false));
    let one = SyncStatus::from_comparison("r".to_string(), Some((0, 4)));
    assert!(!one.in_sync);
}

#[test]
fn merge_takes_the_other_sync_choices_when_not_default() {
    let mut other = Config::default();
    other.sync.strategy = multigit::models::config::SyncStrategy::Rebase;
    other.sync.detect_conflicts = false;
    other.sync.auto_resolve = true;
    let merged = Config::default().merge(other);
    assert_eq!(merged.sync.strategy, multigit::models::config::SyncStrategy::Rebase);
    assert!(!merged.sync.detect_conflicts);
    assert!(merged.sync.auto_resolve);

    let mut base = Config::default();
    base.sync.strategy = multigit::models::config::SyncStrategy::Merge;
    base.sync.auto_resolve = true;
    let kept = base.merge(Config::default());
    assert_eq!(kept.sync.strategy, multigit::models::config::SyncStrategy::Merge);
    assert!(kept.sync.detect_conflicts);
    assert!(kept.sync.auto_resolve);
}

#[test]
fn layers_repo_over_user_over_defaults() {
    let mut user = Config::default();
    user.settings.default_branch = "develop".to_string();
    user.sync.auto_resolve = true;
    user.daemon.enabled = true;
    user.daemon.interval_seconds = 60;
    let mut repo = Config::default();
    repo.settings.max_parallel = 9;
    repo.sync.strategy = multigit::models::config::SyncStrategy::Merge;
    repo.security.audit_log = true;
    let c = Config::from_layers(Some(user), Some(repo));
    assert_eq!(c.settings.default_branch, "develop");
    assert_eq!(c.settings.max_parallel, 9);
    assert!(c.sync.auto_resolve);
    assert_eq!(c.sync.strategy, multigit::models::config::SyncStrategy::Merge);
    assert!(c.security.audit_log);
    assert!(c.daemon.enabled);
    assert_eq!(c.daemon.interval_seconds, 60);
}
