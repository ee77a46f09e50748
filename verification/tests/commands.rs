use multigit::cli::git_args::{
    amend_args, commit_args, commit_hash_of, log_args, log_entry_hash, log_entry_label,
    merge_outcome, mirror_push_args, passthrough_args, porcelain_files, reset_args, reset_mode,
    stash_id, stash_push_args, undo_commit_args, MergeOutcome,
};
use multigit::cli::prompts::{
    asks_api_url, checked_repo_name, checked_token, checked_username, pick_remote,
    strategy_for_choice, token_requirements, RemotePick,
};
use multigit::cli::remotes::{count_created, protocol_label, remote_summary};
use multigit::cli::setup::{
    api_url_question, apply_preferences, check_wizard_provider, max_parallel_choice,
    token_instructions, wizard_connection_failed, wizard_providers, ApiUrlQuestion,
};
use multigit::cli::targets::{
    enabled_remote_names, fetch_targets, local_branch_ref, not_a_repository, push_outcome,
    push_targets, remote_tracking_ref, FetchTargets,
};
use multigit::cli::worktree::{
    alias_entry, branch_option, commit_file_status, files_with_status, interval_for_minutes,
    log_tail, parse_branch_list, stage_option, staged_status_name, unstaged_file_status,
    validate_branch_name, StatusFlags,
};
use multigit::engine::config::{Config, RemoteConfig};
use multigit::engine::retry::{after_failure, RetryStep};
use multigit::engine::sync_manager::PushResult;
use multigit::error::MultiGitError;
use multigit::git::remote_names::{check_add, check_exists, check_rename, no_url_error, transfer_failure};

fn s(v: &[&str]) -> Vec<String> {
    v.iter().map(|x| x.to_string()).collect()
}

#[test]
fn git_argument_lists() {
    assert_eq!(log_args(None, None, None), s(&["log", "-20", "--pretty=format:%h|%an|%ar|%s"]));
    assert_eq!(
        log_args(Some(5), Some("dev".to_string()), Some("ann".to_string())),
        s(&["log", "-5", "--pretty=format:%h|%an|%ar|%s", "dev", "--author=ann"])
    );
    assert_eq!(stash_push_args(""), s(&["stash", "push"]));
    assert_eq!(stash_push_args("wip"), s(&["stash", "push", "-m", "wip"]));
    assert_eq!(amend_args(false), s(&["commit", "--amend", "--no-edit"]));
    assert_eq!(amend_args(true), s(&["commit", "--amend"]));
    assert_eq!(reset_args("hard", "abc"), s(&["reset", "--hard", "abc"]));
    assert_eq!(undo_commit_args(true), s(&["reset", "--soft", "HEAD~1"]));
    assert_eq!(undo_commit_args(false), s(&["reset", "--hard", "HEAD~1"]));
    assert_eq!(mirror_push_args("o", true, true), s(&["push", "o", "--tags", "--force"]));
    assert_eq!(mirror_push_args("o", false, false), s(&["push", "o", "--all"]));
    assert_eq!(
        commit_args(Some("m".to_string()), true, true, s(&["--x"])),
        s(&["commit", "-m", "m", "--amend", "-a", "--x"])
    );
    assert_eq!(passthrough_args("diff", s(&["HEAD"])), s(&["diff", "HEAD"]));
    assert_eq!(reset_mode(0), "soft");
    assert_eq!(reset_mode(2), "hard");
    assert_eq!(reset_mode(7), "mixed");
}

#[test]
fn reading_git_output() {
    assert_eq!(log_entry_label("abc|Ann|2 days ago|fix"), "📝 abc • Ann • 2 days ago");
    assert_eq!(log_entry_label("odd line"), "odd line");
    assert_eq!(log_entry_hash("abc|Ann|2 days ago|fix"), Some("abc".to_string()));
    assert_eq!(log_entry_hash("abc|Ann"), None);
    assert_eq!(commit_hash_of("  1a2b3c fix things"), "1a2b3c");
    assert_eq!(commit_hash_of(""), "");
    assert_eq!(porcelain_files("M  src/a.rs\n?? new.txt\nnospace\n"), s(&["src/a.rs", "new.txt"]));
    assert_eq!(stash_id("stash@{1}: WIP on main"), "stash@{1}");
    assert_eq!(merge_outcome(true, ""), Ok(MergeOutcome::Merged));
    assert_eq!(merge_outcome(false, "CONFLICT (content)"), Ok(MergeOutcome::Conflicts));
    assert_eq!(
        merge_outcome(false, "fatal: nope"),
        Err(MultiGitError::Other("Merge failed: fatal: nope".to_string()))
    );
}

#[test]
fn prompt_answers() {
    assert_eq!(checked_username("  ann "), Ok("ann".to_string()));
    assert_eq!(
        checked_username("   "),
        Err(MultiGitError::Other("Username cannot be empty".to_string()))
    );
    assert_eq!(checked_token(""), Err(MultiGitError::Other("Token cannot be empty".to_string())));
    assert_eq!(checked_repo_name("good-name"), Ok("good-name".to_string()));
    assert_eq!(
        checked_repo_name(" bad"),
        Err(MultiGitError::Other(
            "Invalid repository name. Use only alphanumeric characters, hyphens, and underscores".to_string()
        ))
    );
    assert!(asks_api_url("gitea") && asks_api_url("gitlab") && !asks_api_url("github"));
    assert_eq!(strategy_for_choice(1), "theirs");
    assert_eq!(strategy_for_choice(9), "manual");
    assert!(pick_remote(&vec![]).is_err());
    assert_eq!(pick_remote(&s(&["a"])), Ok(RemotePick::Only("a".to_string())));
    assert_eq!(pick_remote(&s(&["a", "b"])), Ok(RemotePick::Ask));
    assert_eq!(token_requirements("gitlab").len(), 2);
}

#[test]
fn wizard_decisions() {
    assert_eq!(wizard_providers()[4], ("Gitea (self-hosted)", "gitea"));
    assert_eq!(api_url_question("gitea"), ApiUrlQuestion::InstanceUrl);
    assert_eq!(api_url_question("gitlab"), ApiUrlQuestion::IfSelfHosted);
    assert_eq!(api_url_question("github"), ApiUrlQuestion::Nothing);
    assert_eq!(token_instructions("github")[0], "1. Go to: https://github.com/settings/tokens");
    assert!(check_wizard_provider("github").is_ok());
    assert_eq!(
        check_wizard_provider("codeberg").unwrap_err(),
        MultiGitError::Other("Provider codeberg not yet supported in wizard".to_string())
    );
    assert_eq!(
        wizard_connection_failed("gitlab"),
        MultiGitError::Auth {
            provider: "gitlab".to_string(),
            message: "Connection failed. Please check your token and try again.".to_string(),
        }
    );
    assert_eq!(max_parallel_choice(0), 2);
    assert_eq!(max_parallel_choice(3), 16);
    assert_eq!(max_parallel_choice(5), 4);
    let mut config = Config::default();
    apply_preferences(&mut config, true, 2, false, false);
    assert_eq!(config.settings.max_parallel, 8);
    assert!(!config.settings.colored_output);
    assert!(!config.sync.detect_conflicts);
    apply_preferences(&mut config, false, 0, true, true);
    assert!(!config.settings.parallel_push);
    assert_eq!(config.settings.max_parallel, 8);
}

fn remote(user: &str, enabled: bool) -> RemoteConfig {
    RemoteConfig {
        username: user.to_string(),
        api_url: None,
        enabled,
        provider: None,
        use_ssh: false,
        priority: 0,
    }
}

#[test]
fn command_targets() {
    let mut config = Config::default();
    config.add_remote("github".to_string(), remote("a", true));
    config.add_remote("gitlab".to_string(), remote("b", false));
    assert_eq!(enabled_remote_names(&config), s(&["github"]));
    assert_eq!(push_targets(vec![], &config), s(&["github"]));
    assert_eq!(push_targets(s(&["x"]), &config), s(&["x"]));
    assert!(matches!(fetch_targets(vec![], false, &config), FetchTargets::Remotes(v) if v == s(&["origin"])));
    assert!(matches!(fetch_targets(vec![], true, &config), FetchTargets::Remotes(v) if v == s(&["github"])));
    assert!(matches!(fetch_targets(vec![], true, &Config::default()), FetchTargets::GitFetchAll));
    let results = vec![
        PushResult::from_outcome("a".to_string(), Ok(()), 1),
        PushResult::from_outcome("b".to_string(), Err("x".to_string()), 1),
    ];
    assert_eq!(push_outcome(&results), Err(MultiGitError::Other("1 push(es) failed".to_string())));
    assert_eq!(push_outcome(&results[..1].to_vec()), Ok(1));
    assert_eq!(local_branch_ref("main"), "refs/heads/main");
    assert_eq!(remote_tracking_ref("origin", "main"), "refs/remotes/origin/main");
    assert_eq!(
        not_a_repository("/x"),
        MultiGitError::Other("Not a git repository: /x\n\nRun 'git init' first.".to_string())
    );
    assert_eq!(remote_summary("github", &remote("a", true)), "✓ github (github)");
    assert_eq!(protocol_label(true), "SSH");
}

fn flags() -> StatusFlags {
    StatusFlags {
        ignored: false,
        wt_new: false,
        wt_modified: false,
        wt_deleted: false,
        wt_renamed: false,
        index_new: false,
        index_modified: false,
        index_deleted: false,
        index_renamed: false,
    }
}

#[test]
fn working_tree_views() {
    assert_eq!(commit_file_status(StatusFlags { index_new: true, ..flags() }), Some("new"));
    assert_eq!(commit_file_status(StatusFlags { ignored: true, ..flags() }), None);
    assert_eq!(commit_file_status(flags()), Some("changed"));
    assert_eq!(unstaged_file_status(StatusFlags { index_modified: true, ..flags() }), None);
    assert_eq!(unstaged_file_status(StatusFlags { wt_deleted: true, ..flags() }), Some("deleted"));
    let files = vec![
        ("a".to_string(), "new".to_string()),
        ("b".to_string(), "modified".to_string()),
        ("c".to_string(), "new".to_string()),
    ];
    assert_eq!(files_with_status(&files, "new"), s(&["a", "c"]));
    assert_eq!(stage_option("a.rs", "modified"), "📝 [modified] a.rs");
    assert_eq!(staged_status_name("R"), "renamed");
    assert_eq!(staged_status_name("X"), "changed");
    assert_eq!(branch_option("main", "main"), "→ main (current)");
    assert_eq!(branch_option("dev", "main"), "  dev");
    assert_eq!(parse_branch_list(" main\n\n dev \n"), s(&["main", "dev"]));
    assert_eq!(validate_branch_name("  "), Err("Branch name cannot be empty"));
    assert_eq!(validate_branch_name("a b"), Err("Branch name cannot contain spaces"));
    assert_eq!(validate_branch_name("ab"), Ok(()));
    assert_eq!(
        alias_entry("alias.co checkout -b"),
        Some(("co".to_string(), "checkout -b".to_string()))
    );
    assert_eq!(alias_entry("noalias"), None);
    assert_eq!(log_tail(s(&["1", "2", "3"]), 2), s(&["2", "3"]));
    assert_eq!(log_tail(s(&["1"]), 5), s(&["1"]));
    assert_eq!(interval_for_minutes(5), 300);
}

#[test]
fn remote_bookkeeping_rules() {
    let names = s(&["origin", "upstream"]);
    assert_eq!(
        check_add(&names, "origin"),
        Err(MultiGitError::Other("Remote 'origin' already exists. Use update to change the URL.".to_string()))
    );
    assert!(check_add(&names, "mirror").is_ok());
    assert_eq!(check_exists(&names, "gone"), Err(MultiGitError::RemoteNotFound("gone".to_string())));
    assert_eq!(
        check_rename(&names, "origin", "upstream"),
        Err(MultiGitError::Other("Remote 'upstream' already exists".to_string()))
    );
    assert!(check_rename(&names, "origin", "main").is_ok());
    assert_eq!(no_url_error("x"), MultiGitError::Other("Remote 'x' has no URL".to_string()));
    assert_eq!(
        transfer_failure("Fetch", true, 300, "io"),
        MultiGitError::Other("Fetch timed out after 300s".to_string())
    );
    assert_eq!(transfer_failure("Push", false, 300, "io"), MultiGitError::Other("io".to_string()));
}

#[test]
fn retry_steps() {
    assert_eq!(after_failure(1, 3), RetryStep::Retry { backoff_attempt: 0 });
    assert_eq!(after_failure(2, 3), RetryStep::Retry { backoff_attempt: 1 });
    assert_eq!(after_failure(3, 3), RetryStep::GiveUp);
    assert_eq!(after_failure(1, 0), RetryStep::GiveUp);
}

#[test]
fn counting_created_repositories() {
    assert_eq!(count_created(&vec![]), 0);
    assert_eq!(count_created(&vec![true, false, true]), 2);
    assert_eq!(count_created(&vec![false, false]), 0);
}

#[test]
fn todays_date_has_the_iso_shape() {
    let d: Vec<char> = multigit::clock::local_date().chars().collect();
    let n = d.len();
    assert!(n >= 10);
    assert_eq!(d[n - 6], '-');
    assert_eq!(d[n - 3], '-');
    for i in [n - 5, n - 4, n - 2, n - 1] {
        assert!(d[i].is_ascii_digit());
    }
}
