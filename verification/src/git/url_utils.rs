//! Converting and taking apart remote URLs.
use vstd::prelude::*;

use crate::text::{
    concat3, contains_spec, contains_str, has_prefix, lemma_split_nonempty, lemma_split_two, owned,
    split_char,
    split_spec, starts_with, trim_end_matches, trim_end_matches_spec, trim_start_matches,
    trim_start_matches_spec,
};

verus! {

/// What `url::Url::parse` makes of a text: the host and the path of the URL, or the
/// message of the parse error.
pub uninterp spec fn url_parts(s: Seq<char>) -> Result<(Option<Seq<char>>, Seq<char>), Seq<char>>;

/// The parts of a parsed URL as plain text.
pub open spec fn parts_view(r: Result<(Option<String>, String), String>) -> Result<
    (Option<Seq<char>>, Seq<char>),
    Seq<char>,
> {
    match r {
        Ok((h, p)) => Ok(
            (
                match h {
                    Some(x) => Some(x@),
                    None => None,
                },
                p@,
            ),
        ),
        Err(e) => Err(e@),
    }
}

/// Calls `url::Url::parse` and reads the host (`host_str`) and the path (`path`) of the
/// result, or the message of the error; the contract names the answer.
#[verifier::external_body]
pub fn parse_url(s: &str) -> (r: Result<(Option<String>, String), String>)
    ensures
        parts_view(r) == url_parts(s@),
{
    match url::Url::parse(s) {
        Ok(u) => {
            let host = match u.host_str() {
                Some(h) => Some(h.to_string()),
                None => None,
            };
            Ok((host, u.path().to_string()))
        },
        Err(e) => Err(e.to_string()),
    }
}

/// What `https_to_ssh` gives for a URL whose parse gave `parts`.
pub open spec fn https_to_ssh_spec(parts: Result<(Option<Seq<char>>, Seq<char>), Seq<char>>) -> Result<
    Seq<char>,
    Seq<char>,
> {
    match parts {
        Err(e) => Err(e),
        Ok((None, _)) => Err("No host in URL"@),
        Ok((Some(host), path)) => Ok(
            "git@"@ + host + ":"@ + trim_start_matches_spec(path, "/"@),
        ),
    }
}

/// Converts an HTTPS URL to the SSH form `git@host:path`.
pub fn https_to_ssh(https_url: &str) -> (r: Result<String, String>)
    ensures
        match r {
            Ok(x) => https_to_ssh_spec(url_parts(https_url@)) == Ok::<Seq<char>, Seq<char>>(x@),
            Err(e) => https_to_ssh_spec(url_parts(https_url@)) == Err::<Seq<char>, Seq<char>>(
                e@,
            ),
        },
{
    let parsed = parse_url(https_url);
    ssh_from_parts(parsed)
}

/// The SSH form of a URL from its parsed parts.
pub fn ssh_from_parts(parsed: Result<(Option<String>, String), String>) -> (r: Result<
    String,
    String,
>)
    ensures
        match r {
            Ok(x) => https_to_ssh_spec(parts_view(parsed)) == Ok::<Seq<char>, Seq<char>>(x@),
            Err(e) => https_to_ssh_spec(parts_view(parsed)) == Err::<Seq<char>, Seq<char>>(e@),
        },
{
    match parsed {
        Err(e) => Err(e),
        Ok((None, _)) => Err(owned("No host in URL")),
        Ok((Some(host), path)) => {
            let p = trim_start_matches(path.as_str(), "/");
            let mut r = concat3("git@", host.as_str(), ":");
            r.append(p);
            Ok(r)
        },
    }
}

/// What `ssh_to_https` gives for a URL `s` whose parse gave `parts`.
pub open spec fn ssh_to_https_spec(
    s: Seq<char>,
    parts: Result<(Option<Seq<char>>, Seq<char>), Seq<char>>,
) -> Result<Seq<char>, Seq<char>> {
    if has_prefix(s, "git@"@) {
        let pieces = split_spec(s, ':');
        if pieces.len() != 2 {
            Err("Invalid SSH URL format"@)
        } else {
            Ok(
                "https://"@ + trim_start_matches_spec(pieces[0], "git@"@) + "/"@ + pieces[1],
            )
        }
    } else {
        match parts {
            Ok((Some(host), path)) => Ok(
                "https://"@ + host + "/"@ + trim_start_matches_spec(path, "/"@),
            ),
            _ => Err("Unsupported SSH URL format"@),
        }
    }
}

/// Converts an SSH URL (`git@host:path` or `ssh://git@host/path`) to HTTPS.
pub fn ssh_to_https(ssh_url: &str) -> (r: Result<String, String>)
    ensures
        match r {
            Ok(x) => ssh_to_https_spec(ssh_url@, url_parts(ssh_url@)) == Ok::<
                Seq<char>,
                Seq<char>,
            >(x@),
            Err(e) => ssh_to_https_spec(ssh_url@, url_parts(ssh_url@)) == Err::<
                Seq<char>,
                Seq<char>,
            >(e@),
        },
{
    if starts_with(ssh_url, "git@") {
        let parts = split_char(ssh_url, ':');
        if parts.len() != 2 {
            return Err(owned("Invalid SSH URL format"));
        }
        let host = trim_start_matches(parts[0].as_str(), "git@");
        let mut r = concat3("https://", host, "/");
        r.append(parts[1].as_str());
        return Ok(r);
    }
    let parsed = parse_url(ssh_url);
    https_from_parts(ssh_url, parsed)
}

/// The HTTPS form of an `ssh://` URL from its parsed parts.
pub fn https_from_parts(ssh_url: &str, parsed: Result<(Option<String>, String), String>) -> (r:
    Result<String, String>)
    requires
        !has_prefix(ssh_url@, "git@"@),
    ensures
        match r {
            Ok(x) => ssh_to_https_spec(ssh_url@, parts_view(parsed)) == Ok::<
                Seq<char>,
                Seq<char>,
            >(x@),
            Err(e) => ssh_to_https_spec(ssh_url@, parts_view(parsed)) == Err::<
                Seq<char>,
                Seq<char>,
            >(e@),
        },
{
    match parsed {
        Ok((Some(host), path)) => {
            let p = trim_start_matches(path.as_str(), "/");
            let mut r = concat3("https://", host.as_str(), "/");
            r.append(p);
            Ok(r)
        },
        _ => Err(owned("Unsupported SSH URL format")),
    }
}

/// An HTTPS URL with a host turns into its SSH form and back into the HTTPS URL of the
/// same host and path, the path's leading slashes dropped; this holds where neither the
/// host nor that path holds a `:` and the host holds no `@`.
pub proof fn law_ssh_round_trip(u: Seq<char>, host: Seq<char>, path: Seq<char>)
    requires
        url_parts(u) == Ok::<(Option<Seq<char>>, Seq<char>), Seq<char>>((Some(host), path)),
        !host.contains(':'),
        !host.contains('@'),
        !trim_start_matches_spec(path, "/"@).contains(':'),
    ensures
        https_to_ssh_spec(url_parts(u)) matches Ok(ssh) && ssh_to_https_spec(ssh, url_parts(ssh))
            == Ok::<Seq<char>, Seq<char>>(
            "https://"@ + host + "/"@ + trim_start_matches_spec(path, "/"@),
        ),
{
    reveal_strlit("git@");
    reveal_strlit(":");
    let p = trim_start_matches_spec(path, "/"@);
    let gh = "git@"@ + host;
    let ssh = gh + ":"@ + p;
    assert(https_to_ssh_spec(url_parts(u)) == Ok::<Seq<char>, Seq<char>>(ssh));
    assert(":"@ =~= seq![':']);
    assert(!gh.contains(':')) by {
        if gh.contains(':') {
            let k = choose|k: int| 0 <= k < gh.len() && gh[k] == ':';
            if k >= 4 {
                assert(host[k - 4] == ':');
            }
        }
    }
    lemma_split_two(gh, p, ':');
    assert(ssh.take(4) =~= "git@"@);
    assert(has_prefix(ssh, "git@"@));
    assert(gh.take(4) =~= "git@"@);
    assert(gh.skip(4) =~= host);
    assert(!has_prefix(host, "git@"@)) by {
        if has_prefix(host, "git@"@) {
            assert(host.take(4)[3] == '@');
            assert(host[3] == '@');
        }
    }
    assert(trim_start_matches_spec(host, "git@"@) == host);
    assert(trim_start_matches_spec(gh, "git@"@) == host);
}

/// The repository name at the end of a path: the last `/`-separated piece once leading
/// slashes and trailing `.git` suffixes are gone.
pub open spec fn repo_name_of_path(path: Seq<char>) -> Seq<char> {
    split_spec(trim_end_matches_spec(trim_start_matches_spec(path, "/"@), ".git"@), '/').last()
}

/// What `extract_repo_name` gives for `url` whose parse gave `parts`.
pub open spec fn extract_repo_name_spec(
    url: Seq<char>,
    parts: Result<(Option<Seq<char>>, Seq<char>), Seq<char>>,
) -> Option<Seq<char>> {
    if contains_spec(url, "://"@) {
        match parts {
            Ok((_, path)) => Some(repo_name_of_path(path)),
            Err(_) => None,
        }
    } else if contains_spec(url, ":"@) {
        Some(repo_name_of_path(split_spec(url, ':')[1]))
    } else {
        None
    }
}

/// The repository name in a path.
pub fn repo_name_from_path(path: &str) -> (r: String)
    ensures
        r@ == repo_name_of_path(path@),
{
    let a = trim_start_matches(path, "/");
    let b = trim_end_matches(a, ".git");
    let pieces = split_char(b, '/');
    proof {
        lemma_split_nonempty(b@, '/');
    }
    let k = pieces.len();
    pieces[k - 1].clone()
}

/// A `:` in `s` means `s` splits into at least two pieces at `:`.
proof fn lemma_contains_colon_splits(s: Seq<char>)
    requires
        contains_spec(s, ":"@),
    ensures
        split_spec(s, ':').len() >= 2,
{
    reveal_strlit(":");
    let i = choose|i: int| 0 <= i <= s.len() && #[trigger] has_prefix(s.skip(i), ":"@);
    assert(s.skip(i).take(1)[0] == ':');
    assert(s[i] == ':');
    lemma_split_count(s, i);
}

/// Splitting at `c` gives more than one piece when `c` occurs at `i`.
proof fn lemma_split_count(s: Seq<char>, i: int)
    requires
        0 <= i < s.len(),
        s[i] == ':',
    ensures
        split_spec(s, ':').len() >= 2,
    decreases s.len(),
{
    lemma_split_nonempty(s.drop_last(), ':');
    if i < s.len() - 1 {
        lemma_split_count(s.drop_last(), i);
    }
}

/// The repository name at the end of a remote URL.
pub fn extract_repo_name(url: &str) -> (r: Option<String>)
    ensures
        match r {
            Some(x) => extract_repo_name_spec(url@, url_parts(url@)) == Some(x@),
            None => extract_repo_name_spec(url@, url_parts(url@)) is None,
        },
{
    if contains_str(url, "://") {
        let parsed = parse_url(url);
        match parsed {
            Ok((_, path)) => Some(repo_name_from_path(path.as_str())),
            Err(_) => None,
        }
    } else if contains_str(url, ":") {
        let pieces = split_char(url, ':');
        proof {
            lemma_contains_colon_splits(url@);
        }
        Some(repo_name_from_path(pieces[1].as_str()))
    } else {
        None
    }
}

} // verus!
