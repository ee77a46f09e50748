use multigit::git::url_utils::{extract_repo_name, https_from_parts, https_to_ssh, parse_url, ssh_from_parts, ssh_to_https};

#[test]
fn test_url_conversion() {
    let https = "https://github.com/user/repo.git";
    let ssh = "git@github.com:user/repo.git";
    assert_eq!(https_to_ssh(https).unwrap(), ssh);
    assert_eq!(ssh_to_https(ssh).unwrap(), https);
}

#[test]
fn test_extract_repo_name() {
    assert_eq!(
        extract_repo_name("https://github.com/user/myrepo.git"),
        Some("myrepo".to_string())
    );
    assert_eq!(
        extract_repo_name("git@github.com:user/myrepo.git"),
        Some("myrepo".to_string())
    );
}

#[test]
fn url_parts_come_from_the_parser() {
    let (host, path) = parse_url("https://gitlab.com/group/project.git").unwrap();
    assert_eq!(host, Some("gitlab.com".to_string()));
    assert_eq!(path, "/group/project.git");
    assert!(parse_url("not a url").is_err());
}

#[test]
fn conversion_from_given_parts() {
    let ssh = ssh_from_parts(Ok((Some("example.org".to_string()), "/a/b.git".to_string())));
    assert_eq!(ssh.unwrap(), "git@example.org:a/b.git");
    assert!(ssh_from_parts(Err("bad".to_string())).is_err());
    assert!(https_to_ssh("nonsense").is_err());
    let https = https_from_parts(
        "ssh://git@example.org/a/b.git",
        Ok((Some("example.org".to_string()), "/a/b.git".to_string())),
    );
    assert_eq!(https.unwrap(), "https://example.org/a/b.git");
    assert_eq!(
        ssh_to_https("ssh://git@example.org/a/b.git").unwrap(),
        "https://example.org/a/b.git"
    );
    assert_eq!(ssh_to_https("git@a:b:c").unwrap_err(), "Invalid SSH URL format");
}

#[test]
fn ssh_round_trip_gives_back_the_https_url() {
    let cases = [
        ("https://gitlab.com/group/sub/project.git", "https://gitlab.com/group/sub/project.git"),
        ("https://example.org//x", "https://example.org/x"),
    ];
    for (url, expected) in cases {
        let ssh = https_to_ssh(url).unwrap();
        assert_eq!(ssh_to_https(&ssh).unwrap(), expected);
    }
    // A `:` in the path breaks the round trip.
    let ssh = https_to_ssh("https://example.org/a:b").unwrap();
    assert_eq!(ssh, "git@example.org:a:b");
    assert!(ssh_to_https(&ssh).is_err());
}
