use multigit::cli::changelog::{
    changelog_file_content, format_changelog, format_changelog_dated, parse_conventional_commit,
    section_title,
};
use multigit::cli::commit::{
    build_commit_message, chosen_scope, clean_body, commit_types, common_scopes,
    detect_scopes_from_files, is_common_scope, optional_answer, scope_options, validate_description,
};
use multigit::cli::conflicts::{
    conflicts_to_resolve, resolve_all, scan_remotes, scan_verdict, RemoteCheck,
};
use multigit::cli::naming::{extract_repo_name, is_valid_repo_name, mirror_url};
use multigit::cli::remotes::{
    check_existing_connection, check_existing_remote, check_new_connection, check_provider,
    check_updated_connection, credentials_unreadable, find_remote, is_supported_provider,
    missing_token_error, new_remote_config, ExistingRemote,
};
use multigit::engine::config::Config;
use multigit::engine::conflict_resolver::{ConflictResolver, Resolution, ResolutionStrategy};
use multigit::error::MultiGitError;

#[test]
fn test_valid_repo_names() {
    assert!(is_valid_repo_name("my-repo"));
    assert!(is_valid_repo_name("my_repo"));
    assert!(is_valid_repo_name("my.repo"));
    assert!(is_valid_repo_name("my-repo-123"));
    assert!(is_valid_repo_name("123-repo"));
}

#[test]
fn test_invalid_repo_names() {
    assert!(!is_valid_repo_name(""));
    assert!(!is_valid_repo_name("-repo"));
    assert!(!is_valid_repo_name("repo-"));
    assert!(!is_valid_repo_name(".repo"));
    assert!(!is_valid_repo_name("repo."));
    assert!(!is_valid_repo_name("repo space"));
    assert!(!is_valid_repo_name("repo@name"));
}

#[test]
fn repo_name_length_counts_bytes() {
    assert!(is_valid_repo_name(&"a".repeat(100)));
    assert!(!is_valid_repo_name(&"a".repeat(101)));
    assert!(!is_valid_repo_name(&"é".repeat(51)));
    assert!(is_valid_repo_name("café"));
}

#[test]
fn test_supported_providers() {
    assert!(is_supported_provider("github"));
    assert!(is_supported_provider("gitlab"));
    assert!(is_supported_provider("bitbucket"));
    assert!(is_supported_provider("codeberg"));
    assert!(is_supported_provider("gitea"));
    assert!(!is_supported_provider("invalid"));
}

#[test]
fn provider_check_lowercases_and_explains() {
    assert_eq!(check_provider("GitHub").unwrap(), "github");
    assert_eq!(
        check_provider("Forgejo").unwrap_err(),
        MultiGitError::Other(
            "Unsupported provider 'Forgejo'. Supported providers: github, gitlab, bitbucket, codeberg, gitea"
                .to_string()
        )
    );
}

#[test]
fn adding_a_taken_name() {
    let mut config = Config::default();
    config.add_remote(
        "github".to_string(),
        new_remote_config("u".to_string(), None, "github".to_string()),
    );
    assert_eq!(check_existing_remote(&config, "gitlab", false).unwrap(), ExistingRemote::Absent);
    assert_eq!(
        check_existing_remote(&config, "github", true).unwrap(),
        ExistingRemote::ConfirmOverwrite
    );
    assert_eq!(
        check_existing_remote(&config, "github", false).unwrap_err(),
        MultiGitError::Other(
            "Remote 'github' already exists. Use 'update' command to modify it.".to_string()
        )
    );
    assert_eq!(find_remote(&config, "GITHUB").unwrap(), "github");
    assert_eq!(
        find_remote(&config, "Nope").unwrap_err(),
        MultiGitError::Other("Remote 'Nope' not found".to_string())
    );
}

#[test]
fn remote_errors() {
    assert_eq!(
        missing_token_error("gitlab"),
        MultiGitError::Auth {
            provider: "gitlab".to_string(),
            message: "Token not provided. Set MULTIGIT_GITLAB_TOKEN environment variable or use interactive mode"
                .to_string(),
        }
    );
    assert!(check_new_connection("github", "GitHub", Ok(true)).is_ok());
    assert_eq!(
        check_new_connection("github", "GitHub", Err("dns".to_string())).unwrap_err(),
        MultiGitError::Network("Failed to connect to GitHub: dns".to_string())
    );
    assert_eq!(
        check_existing_connection("github", Ok(false)).unwrap_err(),
        MultiGitError::Auth {
            provider: "github".to_string(),
            message: "Authentication failed. Credentials may be invalid or expired".to_string(),
        }
    );
    assert_eq!(
        check_updated_connection("github", Err("x".to_string())).unwrap_err(),
        MultiGitError::Network("Failed to test new credentials: x".to_string())
    );
    assert_eq!(
        credentials_unreadable("github", "gone").to_string(),
        "Authentication failed for github: Could not retrieve credentials: gone"
    );
    let c = new_remote_config("u".to_string(), None, "github".to_string());
    assert!(c.enabled && !c.use_ssh && c.priority == 0);
}

fn check(name: &str, enabled: bool, comparison: Option<(usize, usize)>) -> RemoteCheck {
    RemoteCheck { name: name.to_string(), enabled, comparison }
}

#[test]
fn conflict_scan_and_resolution() {
    let checks = vec![
        check("github", true, Some((0, 0))),
        check("gitlab", true, Some((2, 3))),
        check("codeberg", false, Some((5, 5))),
        check("gitea", true, None),
        check("bitbucket", true, Some((1, 0))),
    ];
    let scan = scan_remotes(&checks);
    assert!(scan.conflicts_found);
    let names: Vec<&str> = scan.states.iter().map(|s| s.name.as_str()).collect();
    assert_eq!(names, vec!["github", "gitlab", "bitbucket"]);
    assert!(scan.states[1].diverged);
    assert_eq!(
        scan_verdict(&scan).unwrap_err(),
        MultiGitError::Conflict("Conflicts detected across remotes".to_string())
    );
    let conflicts = conflicts_to_resolve("main", &checks);
    assert_eq!(conflicts.len(), 1);
    assert_eq!((conflicts[0].local_commits, conflicts[0].remote_commits), (2, 3));
    let resolver = ConflictResolver::new(ResolutionStrategy::Force);
    assert_eq!(resolve_all(&resolver, &conflicts), vec![Resolution::ForcePush]);
    let calm = scan_remotes(&vec![check("github", true, Some((0, 1)))]);
    assert!(scan_verdict(&calm).is_ok());
}

#[test]
fn test_extract_clone_dir() {
    assert_eq!(extract_repo_name("https://github.com/user/myrepo.git"), "myrepo");
    assert_eq!(extract_repo_name("myrepo"), "myrepo");
    assert_eq!(extract_repo_name("https://host/a/b.git.git"), "b");
    assert_eq!(mirror_url("gitlab", "myrepo"), "https://gitlab.com/user/myrepo.git");
}

#[test]
fn conventional_commit_lists() {
    let types = commit_types();
    assert_eq!(types.len(), 11);
    assert_eq!(types[0].0, "feat");
    assert_eq!(types[10].0, "revert");
    assert_eq!(common_scopes().len(), 15);
    assert!(is_common_scope("daemon"));
    assert!(!is_common_scope("build"));
}

#[test]
fn scopes_from_files() {
    let files = vec![
        "src/cli/main.rs".to_string(),
        "src/cli/other.rs".to_string(),
        "tests/it.rs".to_string(),
        "docs/GUIDE.MD".to_string(),
        "README.md".to_string(),
    ];
    let scopes = detect_scopes_from_files(&files);
    assert_eq!(scopes, vec!["cli".to_string(), "test".to_string(), "docs".to_string()]);
    let options = scope_options(&scopes);
    assert_eq!(options[0], "(no scope)");
    assert_eq!(options[1], "cli (detected)");
    assert_eq!(options[4], "core");
    assert_eq!(options.last().unwrap(), "(enter custom scope)");
    assert_eq!(options.len(), 1 + 3 + 12 + 1);
    assert_eq!(chosen_scope("cli (detected)"), "cli");
}

#[test]
fn description_checks() {
    assert_eq!(validate_description("   "), Err("Description cannot be empty"));
    assert_eq!(
        validate_description(&"a".repeat(73)),
        Err("Description should be 72 characters or less")
    );
    assert_eq!(
        validate_description("Add thing"),
        Err("Start with lowercase (conventional commits style)")
    );
    assert_eq!(validate_description("add thing"), Ok(()));
    assert_eq!(optional_answer("  Closes #1 "), Some("Closes #1".to_string()));
    assert_eq!(optional_answer("   "), None);
}

#[test]
fn body_drops_comments() {
    assert_eq!(
        clean_body("# Enter detailed description here\nline one\n# note\nline two\n"),
        Some("line one\nline two".to_string())
    );
    assert_eq!(clean_body("# only a comment\n"), None);
}

#[test]
fn commit_message_layout() {
    assert_eq!(
        build_commit_message("feat", Some("cli"), "add flag", None, false, None),
        "feat(cli): add flag"
    );
    assert_eq!(
        build_commit_message("fix", None, "stop crash", Some("first\nsecond"), true, Some("Closes #9")),
        "fix!: stop crash\n\nfirst\nsecond\n\nBREAKING CHANGE: first\n\nCloses #9"
    );
    assert_eq!(
        build_commit_message("refactor", None, "split module", None, true, None),
        "refactor!: split module\n\nBREAKING CHANGE: split module"
    );
}

#[test]
fn commit_subjects_parse() {
    assert_eq!(
        parse_conventional_commit("feat(cli): add flag"),
        ("feat".to_string(), "add flag".to_string())
    );
    assert_eq!(
        parse_conventional_commit(" fix :  typo "),
        ("fix".to_string(), "typo".to_string())
    );
    assert_eq!(
        parse_conventional_commit("no colon here"),
        ("other".to_string(), "no colon here".to_string())
    );
    assert_eq!(section_title("ci"), "### 👷 CI/CD");
}

#[test]
fn changelog_sections_in_order() {
    let commits = vec![
        "fix: crash".to_string(),
        "feat(api): endpoint".to_string(),
        "random subject".to_string(),
        "feat: flag".to_string(),
    ];
    assert_eq!(
        format_changelog_dated(&commits, "2024-01-02"),
        "## [Unreleased] - 2024-01-02\n\n### ✨ Features\n\n- endpoint\n- flag\n\n### 🐛 Bug Fixes\n\n- crash\n\n"
    );
    assert!(format_changelog(&commits).starts_with("## [Unreleased] - "));
    assert_eq!(changelog_file_content("", "X"), "# Changelog\n\nX");
    assert_eq!(changelog_file_content("old", "X"), "old\n\nX");
}

#[test]
fn version_string() {
    assert_eq!(multigit::version(), "multigit v0.1.0");
}
