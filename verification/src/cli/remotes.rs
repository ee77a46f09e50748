//! The decisions of the `remote` commands: which providers are supported, how remote
//! names are looked up, what a new remote's configuration is, and what a connection
//! test's outcome means.
use vstd::prelude::*;

use crate::engine::auth::token_env_var;
use crate::engine::auth::uppercase;
use crate::engine::config::{Config, RemoteConfig};
use crate::models::config::SyncConfig;
use crate::error::MultiGitError;
use crate::text::{concat2, concat3, join, join_spec, lowercase, owned, str_equal, to_lowercase};

verus! {

/// The providers that remotes can be added for.
pub open spec fn supported_provider(name: Seq<char>) -> bool {
    name == "github"@ || name == "gitlab"@ || name == "bitbucket"@ || name == "codeberg"@ || name
        == "gitea"@
}

/// Whether remotes can be added for the provider `name`: github, gitlab, bitbucket,
/// codeberg or gitea.
pub fn is_supported_provider(name: &str) -> (r: bool)
    ensures
        r == supported_provider(name@),
{
    str_equal(name, "github") || str_equal(name, "gitlab") || str_equal(name, "bitbucket")
        || str_equal(name, "codeberg") || str_equal(name, "gitea")
}

/// The error text for a provider that is not supported.
pub open spec fn unsupported_provider_message(name: Seq<char>) -> Seq<char> {
    "Unsupported provider '"@ + name
        + "'. Supported providers: github, gitlab, bitbucket, codeberg, gitea"@
}

/// An error of the catch-all kind with message `msg`.
pub open spec fn is_other(e: MultiGitError, msg: Seq<char>) -> bool {
    e is Other && e->Other_0@ == msg
}

/// An authentication error for `provider` with message `msg`.
pub open spec fn is_auth(e: MultiGitError, provider: Seq<char>, msg: Seq<char>) -> bool {
    e matches MultiGitError::Auth { provider: p, message: m } && p@ == provider && m@ == msg
}

/// A network error with message `msg`.
pub open spec fn is_network(e: MultiGitError, msg: Seq<char>) -> bool {
    e is Network && e->Network_0@ == msg
}

/// The provider's name in lowercase, if it is supported; else the error that names it.
pub fn check_provider(provider_name: &str) -> (r: Result<String, MultiGitError>)
    ensures
        match r {
            Ok(lower) => lower@ == lowercase(provider_name@) && supported_provider(lower@),
            Err(e) => !supported_provider(lowercase(provider_name@)) && is_other(
                e,
                unsupported_provider_message(provider_name@),
            ),
        },
{
    let lower = to_lowercase(provider_name);
    if is_supported_provider(lower.as_str()) {
        Ok(lower)
    } else {
        Err(
            MultiGitError::Other(
                concat3(
                    "Unsupported provider '",
                    provider_name,
                    "'. Supported providers: github, gitlab, bitbucket, codeberg, gitea",
                ),
            ),
        )
    }
}

/// What adding a remote that may already be configured calls for.
#[derive(Debug, Clone, Copy, PartialEq, Eq, Structural)]
pub enum ExistingRemote {
    /// The name is free.
    Absent,
    /// The name is taken: ask whether to overwrite it.
    ConfirmOverwrite,
}

/// Adding remote `name`: free names go ahead; a taken name asks to overwrite when
/// interactive, and is refused otherwise.
pub fn check_existing_remote(config: &Config, name: &str, interactive: bool) -> (r: Result<
    ExistingRemote,
    MultiGitError,
>)
    ensures
        !config.remotes@.contains_key(name@) ==> r == Ok::<ExistingRemote, MultiGitError>(
            ExistingRemote::Absent,
        ),
        config.remotes@.contains_key(name@) && interactive ==> r == Ok::<
            ExistingRemote,
            MultiGitError,
        >(ExistingRemote::ConfirmOverwrite),
        config.remotes@.contains_key(name@) && !interactive ==> r is Err && is_other(
            r->Err_0,
            "Remote '"@ + name@ + "' already exists. Use 'update' command to modify it."@,
        ),
{
    if !config.remotes.contains_key(name) {
        Ok(ExistingRemote::Absent)
    } else if interactive {
        Ok(ExistingRemote::ConfirmOverwrite)
    } else {
        Err(
            MultiGitError::Other(
                concat3("Remote '", name, "' already exists. Use 'update' command to modify it."),
            ),
        )
    }
}

/// The error when no token was given and the provider's environment variable is unset.
pub fn missing_token_error(provider: &str) -> (r: MultiGitError)
    ensures
        is_auth(
            r,
            provider@,
            "Token not provided. Set "@ + ("MULTIGIT_"@ + uppercase(provider@) + "_TOKEN"@)
                + " environment variable or use interactive mode"@,
        ),
{
    let var = token_env_var(provider);
    let message = concat3(
        "Token not provided. Set ",
        var.as_str(),
        " environment variable or use interactive mode",
    );
    MultiGitError::Auth { provider: owned(provider), message }
}

/// The configuration of a newly added remote: enabled, over HTTPS, priority 0.
pub fn new_remote_config(username: String, api_url: Option<String>, provider: String) -> (r:
    RemoteConfig)
    ensures
        r.username == username,
        r.api_url == api_url,
        r.enabled,
        r.provider == Some(provider),
        !r.use_ssh,
        r.priority == 0,
{
    RemoteConfig { username, api_url, enabled: true, provider: Some(provider), use_ssh: false, priority: 0 }
}

/// The configured name of remote `name` (names are kept in lowercase), or
/// `Remote '<name>' not found`.
pub fn find_remote(config: &Config, name: &str) -> (r: Result<String, MultiGitError>)
    ensures
        match r {
            Ok(lower) => lower@ == lowercase(name@) && config.remotes@.contains_key(lower@),
            Err(e) => !config.remotes@.contains_key(lowercase(name@)) && is_other(
                e,
                "Remote '"@ + name@ + "' not found"@,
            ),
        },
{
    let lower = to_lowercase(name);
    if config.remotes.contains_key(lower.as_str()) {
        Ok(lower)
    } else {
        Err(MultiGitError::Other(concat3("Remote '", name, "' not found")))
    }
}

/// What a connection test (`Ok(answered with valid credentials)` or the failure's text)
/// means when adding a remote for `provider` (named `provider_name` by the user).
pub fn check_new_connection(provider: &str, provider_name: &str, outcome: Result<bool, String>) -> (r:
    Result<(), MultiGitError>)
    ensures
        match outcome {
            Ok(true) => r is Ok,
            Ok(false) => r is Err && is_auth(
                r->Err_0,
                provider@,
                "Authentication failed. Please check your credentials"@,
            ),
            Err(e) => r is Err && is_network(
                r->Err_0,
                "Failed to connect to "@ + provider_name@ + ": "@ + e@,
            ),
        },
{
    match outcome {
        Ok(true) => Ok(()),
        Ok(false) => Err(
            MultiGitError::Auth {
                provider: owned(provider),
                message: owned("Authentication failed. Please check your credentials"),
            },
        ),
        Err(e) => {
            let mut m = concat3("Failed to connect to ", provider_name, ": ");
            m.append(e.as_str());
            Err(MultiGitError::Network(m))
        },
    }
}

/// What a connection test means when testing the configured remote `name`.
pub fn check_existing_connection(name: &str, outcome: Result<bool, String>) -> (r: Result<
    (),
    MultiGitError,
>)
    ensures
        match outcome {
            Ok(true) => r is Ok,
            Ok(false) => r is Err && is_auth(
                r->Err_0,
                name@,
                "Authentication failed. Credentials may be invalid or expired"@,
            ),
            Err(e) => r is Err && is_network(r->Err_0, "Connection test failed: "@ + e@),
        },
{
    match outcome {
        Ok(true) => Ok(()),
        Ok(false) => Err(
            MultiGitError::Auth {
                provider: owned(name),
                message: owned("Authentication failed. Credentials may be invalid or expired"),
            },
        ),
        Err(e) => Err(MultiGitError::Network(concat2("Connection test failed: ", e.as_str()))),
    }
}

/// What a connection test means when checking new credentials for remote `name`.
pub fn check_updated_connection(name: &str, outcome: Result<bool, String>) -> (r: Result<
    (),
    MultiGitError,
>)
    ensures
        match outcome {
            Ok(true) => r is Ok,
            Ok(false) => r is Err && is_auth(
                r->Err_0,
                name@,
                "Authentication failed with new credentials"@,
            ),
            Err(e) => r is Err && is_network(r->Err_0, "Failed to test new credentials: "@ + e@),
        },
{
    match outcome {
        Ok(true) => Ok(()),
        Ok(false) => Err(
            MultiGitError::Auth {
                provider: owned(name),
                message: owned("Authentication failed with new credentials"),
            },
        ),
        Err(e) => Err(
            MultiGitError::Network(concat2("Failed to test new credentials: ", e.as_str())),
        ),
    }
}

/// The error when the stored credentials of remote `name` cannot be read.
pub fn credentials_unreadable(name: &str, reason: &str) -> (r: MultiGitError)
    ensures
        is_auth(r, name@, "Could not retrieve credentials: "@ + reason@),
{
    MultiGitError::Auth {
        provider: owned(name),
        message: concat2("Could not retrieve credentials: ", reason),
    }
}

/// How a configured remote is listed: `✓ name (provider)`, `✗` when disabled, the
/// name standing in for a missing provider.
pub fn remote_summary(name: &str, config: &RemoteConfig) -> (r: String)
    ensures
        r@ == (if config.enabled {
            "✓"@
        } else {
            "✗"@
        }) + " "@ + name@ + " ("@ + match config.provider {
            Some(p) => p@,
            None => name@,
        } + ")"@,
{
    let mark = if config.enabled {
        "✓"
    } else {
        "✗"
    };
    let mut r = concat3(mark, " ", name);
    r.append(" (");
    match &config.provider {
        Some(p) => r.append(p.as_str()),
        None => r.append(name),
    }
    r.append(")");
    r
}

/// The protocol a remote uses, as listed.
pub fn protocol_label(use_ssh: bool) -> (r: &'static str)
    ensures
        r@ == if use_ssh {
            "SSH"@
        } else {
            "HTTPS"@
        },
{
    if use_ssh {
        "SSH"
    } else {
        "HTTPS"
    }
}

impl Config {
    /// Makes remote `remote_name` (in lowercase) the one preferred in conflicts,
    /// returning its lowercase name; an unknown name is refused with the list of
    /// configured names.
    pub fn set_primary_remote(&mut self, remote_name: &str) -> (r: Result<String, MultiGitError>)
        requires
            old(self).wf(),
        ensures
            final(self).wf(),
            final(self).remotes == old(self).remotes,
            final(self).settings == old(self).settings,
            final(self).security == old(self).security,
            final(self).daemon == old(self).daemon,
            match r {
                Ok(lower) => {
                    &&& lower@ == lowercase(remote_name@)
                    &&& old(self).remotes@.contains_key(lower@)
                    &&& final(self).sync == SyncConfig {
                        primary_source: Some(lower),
                        ..old(self).sync
                    }
                },
                Err(e) => {
                    &&& !old(self).remotes@.contains_key(lowercase(remote_name@))
                    &&& is_other(
                        e,
                        "Remote '"@ + remote_name@ + "' not found. Available remotes: "@
                            + join_spec(old(self).remotes.names(), ", "@),
                    )
                    &&& final(self).sync == old(self).sync
                },
            },
    {
        let lower = to_lowercase(remote_name);
        if !self.remotes.contains_key(lower.as_str()) {
            let names = self.remotes.keys();
            let listed = join(&names, ", ");
            let mut m = concat3("Remote '", remote_name, "' not found. Available remotes: ");
            m.append(listed.as_str());
            return Err(MultiGitError::Other(m));
        }
        self.sync.primary_source = Some(lower.clone());
        Ok(lower)
    }
}

/// How many of the outcomes are successes.
pub open spec fn successes(outcomes: Seq<bool>) -> nat
    decreases outcomes.len(),
{
    if outcomes.len() == 0 {
        0
    } else {
        successes(outcomes.drop_last()) + if outcomes.last() {
            1nat
        } else {
            0nat
        }
    }
}

/// Counts the platforms on which a repository was created, given each attempt's outcome.
pub fn count_created(outcomes: &Vec<bool>) -> (r: usize)
    ensures
        r == successes(outcomes@),
{
    let mut n: usize = 0;
    let mut i: usize = 0;
    while i < outcomes.len()
        invariant
            i <= outcomes.len(),
            n == successes(outcomes@.take(i as int)),
            n <= i,
        decreases outcomes.len() - i,
    {
        assert(outcomes@.take(i + 1).drop_last() =~= outcomes@.take(i as int));
        if outcomes[i] {
            n = n + 1;
        }
        i = i + 1;
    }
    assert(outcomes@.take(outcomes.len() as int) =~= outcomes@);
    n
}

} // verus!
