//! The decisions of the setup wizard: which providers it offers, what it asks for each,
//! and how the answers change the configuration.
use vstd::prelude::*;

use crate::engine::config::Config;
use crate::error::MultiGitError;
use crate::models::config::{Settings, SyncConfig};
use crate::text::{concat3, owned, str_equal};

verus! {

/// The providers the wizard offers: (shown name, provider).
pub open spec fn wizard_provider_list() -> Seq<(Seq<char>, Seq<char>)> {
    seq![
        ("GitHub"@, "github"@),
        ("GitLab"@, "gitlab"@),
        ("Bitbucket"@, "bitbucket"@),
        ("Codeberg"@, "codeberg"@),
        ("Gitea (self-hosted)"@, "gitea"@),
    ]
}

/// The providers the wizard offers.
pub fn wizard_providers() -> (r: Vec<(&'static str, &'static str)>)
    ensures
        r@.map_values(|p: (&'static str, &'static str)| (p.0@, p.1@)) == wizard_provider_list(),
{
    let r = vec![
        ("GitHub", "github"),
        ("GitLab", "gitlab"),
        ("Bitbucket", "bitbucket"),
        ("Codeberg", "codeberg"),
        ("Gitea (self-hosted)", "gitea"),
    ];
    assert(r@.map_values(|p: (&'static str, &'static str)| (p.0@, p.1@))
        =~= wizard_provider_list());
    r
}

/// What the wizard asks about a provider's API URL.
#[derive(Debug, Clone, Copy, PartialEq, Eq, Structural)]
pub enum ApiUrlQuestion {
    /// Ask for the instance's URL.
    InstanceUrl,
    /// Ask whether the instance is self-hosted, then for its URL.
    IfSelfHosted,
    /// Ask nothing.
    Nothing,
}

/// Gitea is always self-hosted; GitLab may be; the others are not.
pub fn api_url_question(provider: &str) -> (r: ApiUrlQuestion)
    ensures
        r == if provider@ == "gitea"@ {
            ApiUrlQuestion::InstanceUrl
        } else if provider@ == "gitlab"@ {
            ApiUrlQuestion::IfSelfHosted
        } else {
            ApiUrlQuestion::Nothing
        },
{
    if str_equal(provider, "gitea") {
        ApiUrlQuestion::InstanceUrl
    } else if str_equal(provider, "gitlab") {
        ApiUrlQuestion::IfSelfHosted
    } else {
        ApiUrlQuestion::Nothing
    }
}

/// The steps that get a token from a provider.
pub open spec fn token_steps(provider: Seq<char>) -> Seq<Seq<char>> {
    if provider == "github"@ {
        seq![
            "1. Go to: https://github.com/settings/tokens"@,
            "2. Click 'Generate new token (classic)'"@,
            "3. Select scopes: repo, read:user"@,
            "4. Click 'Generate token' and copy it"@,
        ]
    } else if provider == "gitlab"@ {
        seq![
            "1. Go to: https://gitlab.com/-/profile/personal_access_tokens"@,
            "2. Click 'Add new token'"@,
            "3. Select scopes: api, write_repository"@,
            "4. Click 'Create personal access token' and copy it"@,
        ]
    } else if provider == "bitbucket"@ {
        seq![
            "1. Go to: https://bitbucket.org/account/settings/app-passwords/"@,
            "2. Click 'Create app password'"@,
            "3. Select: Repositories (Read, Write)"@,
            "4. Click 'Create' and copy the password"@,
        ]
    } else if provider == "codeberg"@ {
        seq![
            "1. Go to: https://codeberg.org/user/settings/applications"@,
            "2. Click 'Generate new token'"@,
            "3. Select scopes: write:repository, read:user"@,
            "4. Generate and copy the token"@,
        ]
    } else if provider == "gitea"@ {
        seq![
            "1. Go to your Gitea instance settings"@,
            "2. Navigate to Applications"@,
            "3. Generate a new token with repository permissions"@,
            "4. Copy the generated token"@,
        ]
    } else {
        seq!["Generate a personal access token with repository permissions"@]
    }
}

/// The steps that get a token from `provider`.
pub fn token_instructions(provider: &str) -> (r: Vec<&'static str>)
    ensures
        r@.map_values(|s: &'static str| s@) == token_steps(provider@),
{
    let r = if str_equal(provider, "github") {
        vec![
            "1. Go to: https://github.com/settings/tokens",
            "2. Click 'Generate new token (classic)'",
            "3. Select scopes: repo, read:user",
            "4. Click 'Generate token' and copy it",
        ]
    } else if str_equal(provider, "gitlab") {
        vec![
            "1. Go to: https://gitlab.com/-/profile/personal_access_tokens",
            "2. Click 'Add new token'",
            "3. Select scopes: api, write_repository",
            "4. Click 'Create personal access token' and copy it",
        ]
    } else if str_equal(provider, "bitbucket") {
        vec![
            "1. Go to: https://bitbucket.org/account/settings/app-passwords/",
            "2. Click 'Create app password'",
            "3. Select: Repositories (Read, Write)",
            "4. Click 'Create' and copy the password",
        ]
    } else if str_equal(provider, "codeberg") {
        vec![
            "1. Go to: https://codeberg.org/user/settings/applications",
            "2. Click 'Generate new token'",
            "3. Select scopes: write:repository, read:user",
            "4. Generate and copy the token",
        ]
    } else if str_equal(provider, "gitea") {
        vec![
            "1. Go to your Gitea instance settings",
            "2. Navigate to Applications",
            "3. Generate a new token with repository permissions",
            "4. Copy the generated token",
        ]
    } else {
        vec!["Generate a personal access token with repository permissions"]
    };
    assert(r@.map_values(|s: &'static str| s@) =~= token_steps(provider@));
    r
}

/// The wizard can test connections to GitHub and GitLab only.
pub fn check_wizard_provider(provider: &str) -> (r: Result<(), MultiGitError>)
    ensures
        r is Ok <==> (provider@ == "github"@ || provider@ == "gitlab"@),
        r matches Err(e) ==> e is Other && e->Other_0@ == "Provider "@ + provider@
            + " not yet supported in wizard"@,
{
    if str_equal(provider, "github") || str_equal(provider, "gitlab") {
        Ok(())
    } else {
        Err(MultiGitError::Other(concat3("Provider ", provider, " not yet supported in wizard")))
    }
}

/// The error when the wizard's connection test fails.
pub fn wizard_connection_failed(provider: &str) -> (r: MultiGitError)
    ensures
        r matches MultiGitError::Auth { provider: p, message: m } && p@ == provider@ && m@
            == "Connection failed. Please check your token and try again."@,
{
    MultiGitError::Auth {
        provider: owned(provider),
        message: owned("Connection failed. Please check your token and try again."),
    }
}

/// The number of parallel operations chosen at each position: 2, 4, 8 or 16; 4 for
/// anything else.
pub open spec fn parallel_for_choice(choice: usize) -> usize {
    if choice == 0 {
        2
    } else if choice == 2 {
        8
    } else if choice == 3 {
        16
    } else {
        4
    }
}

/// The number of parallel operations chosen at position `choice`.
pub fn max_parallel_choice(choice: usize) -> (r: usize)
    ensures
        r == parallel_for_choice(choice),
{
    if choice == 0 {
        2
    } else if choice == 2 {
        8
    } else if choice == 3 {
        16
    } else {
        4
    }
}

/// Applies the wizard's advanced settings: parallel operations (and how many, when
/// enabled), coloured output and conflict detection; nothing else changes.
pub fn apply_preferences(
    config: &mut Config,
    parallel: bool,
    parallel_choice: usize,
    colored: bool,
    detect_conflicts: bool,
)
    ensures
        final(config).settings == (Settings {
            parallel_push: parallel,
            max_parallel: if parallel {
                parallel_for_choice(parallel_choice)
            } else {
                old(config).settings.max_parallel
            },
            colored_output: colored,
            ..old(config).settings
        }),
        final(config).sync == (SyncConfig { detect_conflicts, ..old(config).sync }),
        final(config).security == old(config).security,
        final(config).daemon == old(config).daemon,
        final(config).remotes == old(config).remotes,
{
    config.settings.parallel_push = parallel;
    if parallel {
        config.settings.max_parallel = max_parallel_choice(parallel_choice);
    }
    config.settings.colored_output = colored;
    config.sync.detect_conflicts = detect_conflicts;
}

} // verus!
