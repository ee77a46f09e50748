//! What the interactive prompts accept and what they make of the answers.
use vstd::prelude::*;

use crate::cli::naming::{is_valid_repo_name, valid_repo_name};
use crate::error::MultiGitError;
use crate::text::{owned, str_equal, trim, trim_spec};

verus! {

/// A trimmed answer that must not be empty, or the error `empty_message`.
pub open spec fn required_answer(input: Seq<char>, empty_message: Seq<char>) -> Result<
    Seq<char>,
    Seq<char>,
> {
    if trim_spec(input).len() == 0 {
        Err(empty_message)
    } else {
        Ok(trim_spec(input))
    }
}

/// `r` is what `spec` gives, its error of the catch-all kind.
pub open spec fn answer_matches(r: Result<String, MultiGitError>, spec: Result<Seq<char>, Seq<char>>) -> bool {
    match spec {
        Ok(t) => r is Ok && r->Ok_0@ == t,
        Err(m) => r is Err && r->Err_0 is Other && r->Err_0->Other_0@ == m,
    }
}

fn required(input: &str, empty_message: &str) -> (r: Result<String, MultiGitError>)
    ensures
        answer_matches(r, required_answer(input@, empty_message@)),
{
    let t = trim(input);
    if t.unicode_len() == 0 {
        Err(MultiGitError::Other(owned(empty_message)))
    } else {
        Ok(owned(t))
    }
}

/// A username: trimmed, and not empty.
pub fn checked_username(input: &str) -> (r: Result<String, MultiGitError>)
    ensures
        answer_matches(r, required_answer(input@, "Username cannot be empty"@)),
{
    required(input, "Username cannot be empty")
}

/// A token: trimmed, and not empty.
pub fn checked_token(input: &str) -> (r: Result<String, MultiGitError>)
    ensures
        answer_matches(r, required_answer(input@, "Token cannot be empty"@)),
{
    required(input, "Token cannot be empty")
}

/// A repository name as typed: not empty after trimming, and valid as typed; the
/// trimmed name is kept.
pub open spec fn repo_name_answer(input: Seq<char>) -> Result<Seq<char>, Seq<char>> {
    if trim_spec(input).len() == 0 {
        Err("Repository name cannot be empty"@)
    } else if !valid_repo_name(input) {
        Err(
            "Invalid repository name. Use only alphanumeric characters, hyphens, and underscores"@,
        )
    } else {
        Ok(trim_spec(input))
    }
}

/// A repository name as typed.
pub fn checked_repo_name(input: &str) -> (r: Result<String, MultiGitError>)
    ensures
        answer_matches(r, repo_name_answer(input@)),
{
    if trim(input).unicode_len() == 0 {
        Err(MultiGitError::Other(owned("Repository name cannot be empty")))
    } else if !is_valid_repo_name(input) {
        Err(
            MultiGitError::Other(
                owned(
                    "Invalid repository name. Use only alphanumeric characters, hyphens, and underscores",
                ),
            ),
        )
    } else {
        Ok(owned(trim(input)))
    }
}

/// Whether a custom API URL is asked for: for Gitea and GitLab only.
pub fn asks_api_url(provider: &str) -> (r: bool)
    ensures
        r == (provider@ == "gitea"@ || provider@ == "gitlab"@),
{
    str_equal(provider, "gitea") || str_equal(provider, "gitlab")
}

/// The strategy chosen at each position: ours, theirs, primary, manual; manual for
/// anything else.
pub fn strategy_for_choice(choice: usize) -> (r: &'static str)
    ensures
        r@ == if choice == 0 {
            "ours"@
        } else if choice == 1 {
            "theirs"@
        } else if choice == 2 {
            "primary"@
        } else {
            "manual"@
        },
{
    if choice == 0 {
        "ours"
    } else if choice == 1 {
        "theirs"
    } else if choice == 2 {
        "primary"
    } else {
        "manual"
    }
}

/// How a remote is picked from a list.
#[derive(Debug, Clone, PartialEq, Eq)]
pub enum RemotePick {
    /// The only remote.
    Only(String),
    /// The user chooses among several.
    Ask,
}

/// Picking a remote: none is an error, one is taken, several are offered.
pub fn pick_remote(remotes: &Vec<String>) -> (r: Result<RemotePick, MultiGitError>)
    ensures
        remotes@.len() == 0 ==> r is Err && r->Err_0 is Other && r->Err_0->Other_0@
            == "No remotes available"@,
        remotes@.len() == 1 ==> (r matches Ok(RemotePick::Only(n)) && n == remotes@[0]),
        remotes@.len() > 1 ==> r matches Ok(RemotePick::Ask),
{
    if remotes.len() == 0 {
        Err(MultiGitError::Other(owned("No remotes available")))
    } else if remotes.len() == 1 {
        Ok(RemotePick::Only(remotes[0].clone()))
    } else {
        Ok(RemotePick::Ask)
    }
}

/// What a provider's token needs, as shown before asking for it.
pub open spec fn token_requirement_lines(provider: Seq<char>) -> Seq<Seq<char>> {
    if provider == "github"@ {
        seq![
            "Go to: https://github.com/settings/tokens"@,
            "Click 'Generate new token (classic)'"@,
            "Required scopes: repo, read:user"@,
        ]
    } else if provider == "gitlab"@ {
        seq![
            "Go to: https://gitlab.com/-/profile/personal_access_tokens"@,
            "Required scopes: api, read_user, write_repository"@,
        ]
    } else if provider == "bitbucket"@ {
        seq![
            "Go to: https://bitbucket.org/account/settings/app-passwords/"@,
            "Required permissions: Repositories: Read, Write"@,
        ]
    } else if provider == "codeberg"@ {
        seq![
            "Go to: https://codeberg.org/user/settings/applications"@,
            "Required scopes: write:repository, read:user"@,
        ]
    } else if provider == "gitea"@ {
        seq![
            "Go to your Gitea instance settings"@,
            "Generate an access token with repository permissions"@,
        ]
    } else {
        seq!["Generate a personal access token with repository permissions"@]
    }
}

/// What a provider's token needs.
pub fn token_requirements(provider: &str) -> (r: Vec<&'static str>)
    ensures
        r@.map_values(|s: &'static str| s@) == token_requirement_lines(provider@),
{
    let r = if str_equal(provider, "github") {
        vec![
            "Go to: https://github.com/settings/tokens",
            "Click 'Generate new token (classic)'",
            "Required scopes: repo, read:user",
        ]
    } else if str_equal(provider, "gitlab") {
        vec![
            "Go to: https://gitlab.com/-/profile/personal_access_tokens",
            "Required scopes: api, read_user, write_repository",
        ]
    } else if str_equal(provider, "bitbucket") {
        vec![
            "Go to: https://bitbucket.org/account/settings/app-passwords/",
            "Required permissions: Repositories: Read, Write",
        ]
    } else if str_equal(provider, "codeberg") {
        vec![
            "Go to: https://codeberg.org/user/settings/applications",
            "Required scopes: write:repository, read:user",
        ]
    } else if str_equal(provider, "gitea") {
        vec![
            "Go to your Gitea instance settings",
            "Generate an access token with repository permissions",
        ]
    } else {
        vec!["Generate a personal access token with repository permissions"]
    };
    assert(r@.map_values(|s: &'static str| s@) =~= token_requirement_lines(provider@));
    r
}

} // verus!
