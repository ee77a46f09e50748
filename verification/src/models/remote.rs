//! Git hosting providers and the remotes configured on them.
use vstd::prelude::*;

use crate::git::url_utils::{parse_url, url_parts};
use crate::text::{concat2, concat3, contains_spec, has_prefix, lowercase, owned, to_lowercase};

verus! {

/// Supported Git hosting providers.
#[derive(Debug, Clone, Copy, PartialEq, Eq, Hash, Structural)]
pub enum ProviderType {
    GitHub,
    GitLab,
    Bitbucket,
    Codeberg,
    Gitea,
    Forgejo,
}

/// The default API URL of a provider; self-hosted providers have none.
pub open spec fn default_api_url_text(p: ProviderType) -> Seq<char> {
    match p {
        ProviderType::GitHub => "https://api.github.com"@,
        ProviderType::GitLab => "https://gitlab.com/api/v4"@,
        ProviderType::Bitbucket => "https://api.bitbucket.org/2.0"@,
        ProviderType::Codeberg => "https://codeberg.org/api/v1"@,
        ProviderType::Gitea => ""@,
        ProviderType::Forgejo => ""@,
    }
}

/// The display name of a provider.
pub open spec fn display_name_text(p: ProviderType) -> Seq<char> {
    match p {
        ProviderType::GitHub => "GitHub"@,
        ProviderType::GitLab => "GitLab"@,
        ProviderType::Bitbucket => "Bitbucket"@,
        ProviderType::Codeberg => "Codeberg"@,
        ProviderType::Gitea => "Gitea"@,
        ProviderType::Forgejo => "Forgejo"@,
    }
}

/// The provider that a lowercase name stands for.
pub open spec fn provider_from_lowercase(s: Seq<char>) -> Option<ProviderType> {
    if s == "github"@ {
        Some(ProviderType::GitHub)
    } else if s == "gitlab"@ {
        Some(ProviderType::GitLab)
    } else if s == "bitbucket"@ {
        Some(ProviderType::Bitbucket)
    } else if s == "codeberg"@ {
        Some(ProviderType::Codeberg)
    } else if s == "gitea"@ {
        Some(ProviderType::Gitea)
    } else if s == "forgejo"@ {
        Some(ProviderType::Forgejo)
    } else {
        None
    }
}

/// The HTTPS clone URL of `repo` owned by `user` on provider `p`.
pub open spec fn https_url_spec(
    p: ProviderType,
    user: Seq<char>,
    repo: Seq<char>,
    api_url: Option<Seq<char>>,
) -> Seq<char> {
    let tail = user + "/"@ + repo + ".git"@;
    match p {
        ProviderType::GitHub => "https://github.com/"@ + tail,
        ProviderType::GitLab => "https://gitlab.com/"@ + tail,
        ProviderType::Bitbucket => "https://bitbucket.org/"@ + tail,
        ProviderType::Codeberg => "https://codeberg.org/"@ + tail,
        _ => (match api_url {
            Some(b) => b,
            None => "https://localhost"@,
        }) + "/"@ + tail,
    }
}

/// The host that the SSH URL of a self-hosted provider uses: the host of the API URL
/// when it parses and has one, else `localhost`.
pub open spec fn self_hosted_ssh_host(api_url: Option<Seq<char>>) -> Seq<char> {
    match api_url {
        Some(u) => match url_parts(u) {
            Ok((Some(h), _)) => h,
            _ => "localhost"@,
        },
        None => "localhost"@,
    }
}

/// The SSH clone URL of `repo` owned by `user` on provider `p`.
pub open spec fn ssh_url_spec(
    p: ProviderType,
    user: Seq<char>,
    repo: Seq<char>,
    api_url: Option<Seq<char>>,
) -> Seq<char> {
    let tail = user + "/"@ + repo + ".git"@;
    match p {
        ProviderType::GitHub => "git@github.com:"@ + tail,
        ProviderType::GitLab => "git@gitlab.com:"@ + tail,
        ProviderType::Bitbucket => "git@bitbucket.org:"@ + tail,
        ProviderType::Codeberg => "git@codeberg.org:"@ + tail,
        _ => "git@"@ + self_hosted_ssh_host(api_url) + ":"@ + tail,
    }
}

/// A hosted provider serves both clone URLs of a repository from its own host: the
/// HTTPS URL is `https://<host>/<user>/<repo>.git` and the SSH URL
/// `git@<host>:<user>/<repo>.git`, with the same host (github.com, gitlab.com,
/// bitbucket.org or codeberg.org), which also occurs in the provider's default API URL.
pub proof fn law_hosted_urls_share_the_provider_host(
    p: ProviderType,
    user: Seq<char>,
    repo: Seq<char>,
    api_url: Option<Seq<char>>,
)
    requires
        p != ProviderType::Gitea,
        p != ProviderType::Forgejo,
    ensures
        ({
            let host = match p {
                ProviderType::GitHub => "github.com"@,
                ProviderType::GitLab => "gitlab.com"@,
                ProviderType::Bitbucket => "bitbucket.org"@,
                _ => "codeberg.org"@,
            };
            let tail = user + "/"@ + repo + ".git"@;
            &&& https_url_spec(p, user, repo, api_url) == "https://"@ + host + "/"@ + tail
            &&& ssh_url_spec(p, user, repo, api_url) == "git@"@ + host + ":"@ + tail
            &&& contains_spec(default_api_url_text(p), host)
        }),
{
    reveal_strlit("github.com");
    reveal_strlit("gitlab.com");
    reveal_strlit("bitbucket.org");
    reveal_strlit("codeberg.org");
    reveal_strlit("https://");
    reveal_strlit("/");
    reveal_strlit(":");
    reveal_strlit("git@");
    reveal_strlit("https://github.com/");
    reveal_strlit("https://gitlab.com/");
    reveal_strlit("https://bitbucket.org/");
    reveal_strlit("https://codeberg.org/");
    reveal_strlit("git@github.com:");
    reveal_strlit("git@gitlab.com:");
    reveal_strlit("git@bitbucket.org:");
    reveal_strlit("git@codeberg.org:");
    reveal_strlit("https://api.github.com");
    reveal_strlit("https://gitlab.com/api/v4");
    reveal_strlit("https://api.bitbucket.org/2.0");
    reveal_strlit("https://codeberg.org/api/v1");
    let tail = user + "/"@ + repo + ".git"@;
    let (host, k): (Seq<char>, int) = match p {
        ProviderType::GitHub => ("github.com"@, 12),
        ProviderType::GitLab => ("gitlab.com"@, 8),
        ProviderType::Bitbucket => ("bitbucket.org"@, 12),
        _ => ("codeberg.org"@, 8),
    };
    let api = default_api_url_text(p);
    assert(api.skip(k).take(host.len() as int) =~= host);
    assert(has_prefix(api.skip(k), host));
    match p {
        ProviderType::GitHub => {
            assert("https://github.com/"@ + tail =~= "https://"@ + host + "/"@ + tail);
            assert("git@github.com:"@ + tail =~= "git@"@ + host + ":"@ + tail);
        },
        ProviderType::GitLab => {
            assert("https://gitlab.com/"@ + tail =~= "https://"@ + host + "/"@ + tail);
            assert("git@gitlab.com:"@ + tail =~= "git@"@ + host + ":"@ + tail);
        },
        ProviderType::Bitbucket => {
            assert("https://bitbucket.org/"@ + tail =~= "https://"@ + host + "/"@ + tail);
            assert("git@bitbucket.org:"@ + tail =~= "git@"@ + host + ":"@ + tail);
        },
        _ => {
            assert("https://codeberg.org/"@ + tail =~= "https://"@ + host + "/"@ + tail);
            assert("git@codeberg.org:"@ + tail =~= "git@"@ + host + ":"@ + tail);
        },
    }
}

/// The optional text behind an optional string slice.
pub open spec fn opt_str_view(o: Option<&str>) -> Option<Seq<char>> {
    match o {
        Some(s) => Some(s@),
        None => None,
    }
}

/// `user/repo.git`.
fn repo_tail(username: &str, repo: &str) -> (r: String)
    ensures
        r@ == username@ + "/"@ + repo@ + ".git"@,
{
    let mut r = concat3(username, "/", repo);
    r.append(".git");
    r
}

impl ProviderType {
    /// The default API URL; empty for self-hosted providers, whose URL the user gives.
    pub fn default_api_url(&self) -> (r: &'static str)
        ensures
            r@ == default_api_url_text(*self),
    {
        match self {
            ProviderType::GitHub => "https://api.github.com",
            ProviderType::GitLab => "https://gitlab.com/api/v4",
            ProviderType::Bitbucket => "https://api.bitbucket.org/2.0",
            ProviderType::Codeberg => "https://codeberg.org/api/v1",
            ProviderType::Gitea => "",
            ProviderType::Forgejo => "",
        }
    }

    /// The display name.
    pub fn display_name(&self) -> (r: &'static str)
        ensures
            r@ == display_name_text(*self),
    {
        match self {
            ProviderType::GitHub => "GitHub",
            ProviderType::GitLab => "GitLab",
            ProviderType::Bitbucket => "Bitbucket",
            ProviderType::Codeberg => "Codeberg",
            ProviderType::Gitea => "Gitea",
            ProviderType::Forgejo => "Forgejo",
        }
    }

    /// The display name, as the provider is shown.
    pub fn to_string(&self) -> (r: String)
        ensures
            r@ == display_name_text(*self),
    {
        owned(self.display_name())
    }

    /// Whether the provider is self-hosted (Gitea, Forgejo).
    pub fn is_self_hosted(&self) -> (r: bool)
        ensures
            r == (*self == ProviderType::Gitea || *self == ProviderType::Forgejo),
    {
        match self {
            ProviderType::Gitea | ProviderType::Forgejo => true,
            _ => false,
        }
    }

    /// The HTTPS clone URL; self-hosted providers use `api_url` as base (default
    /// `https://localhost`).
    pub fn https_url_template(&self, username: &str, repo: &str, api_url: Option<&str>) -> (r:
        String)
        ensures
            r@ == https_url_spec(*self, username@, repo@, opt_str_view(api_url)),
    {
        let tail = repo_tail(username, repo);
        match self {
            ProviderType::GitHub => concat2("https://github.com/", tail.as_str()),
            ProviderType::GitLab => concat2("https://gitlab.com/", tail.as_str()),
            ProviderType::Bitbucket => concat2("https://bitbucket.org/", tail.as_str()),
            ProviderType::Codeberg => concat2("https://codeberg.org/", tail.as_str()),
            _ => {
                let base: &str = match api_url {
                    Some(u) => u,
                    None => "https://localhost",
                };
                concat3(base, "/", tail.as_str())
            },
        }
    }

    /// The SSH clone URL; self-hosted providers take the host of `api_url` (default
    /// `localhost`).
    pub fn ssh_url_template(&self, username: &str, repo: &str, api_url: Option<&str>) -> (r:
        String)
        ensures
            r@ == ssh_url_spec(*self, username@, repo@, opt_str_view(api_url)),
    {
        let tail = repo_tail(username, repo);
        match self {
            ProviderType::GitHub => concat2("git@github.com:", tail.as_str()),
            ProviderType::GitLab => concat2("git@gitlab.com:", tail.as_str()),
            ProviderType::Bitbucket => concat2("git@bitbucket.org:", tail.as_str()),
            ProviderType::Codeberg => concat2("git@codeberg.org:", tail.as_str()),
            _ => {
                let host: String = match api_url {
                    Some(u) => match parse_url(u) {
                        Ok((Some(h), _)) => h,
                        _ => owned("localhost"),
                    },
                    None => owned("localhost"),
                };
                let mut r = concat3("git@", host.as_str(), ":");
                r.append(tail.as_str());
                r
            },
        }
    }

    /// The provider that a lowercase name stands for.
    pub fn from_lowercase(s: &str) -> (r: Option<ProviderType>)
        ensures
            r == provider_from_lowercase(s@),
    {
        proof {
            reveal_strlit("github");
            reveal_strlit("gitlab");
            reveal_strlit("bitbucket");
            reveal_strlit("codeberg");
            reveal_strlit("gitea");
            reveal_strlit("forgejo");
        }
        if crate::text::str_equal(s, "github") {
            Some(ProviderType::GitHub)
        } else if crate::text::str_equal(s, "gitlab") {
            Some(ProviderType::GitLab)
        } else if crate::text::str_equal(s, "bitbucket") {
            Some(ProviderType::Bitbucket)
        } else if crate::text::str_equal(s, "codeberg") {
            Some(ProviderType::Codeberg)
        } else if crate::text::str_equal(s, "gitea") {
            Some(ProviderType::Gitea)
        } else if crate::text::str_equal(s, "forgejo") {
            Some(ProviderType::Forgejo)
        } else {
            None
        }
    }

    /// Reads a provider name in any case; unknown names give `Unknown provider: <name>`.
    pub fn parse_name(s: &str) -> (r: Result<ProviderType, String>)
        ensures
            match provider_from_lowercase(lowercase(s@)) {
                Some(p) => r == Ok::<ProviderType, String>(p),
                None => r is Err && r->Err_0@ == "Unknown provider: "@ + s@,
            },
    {
        let lower = to_lowercase(s);
        match Self::from_lowercase(lower.as_str()) {
            Some(p) => Ok(p),
            None => Err(concat2("Unknown provider: ", s)),
        }
    }
}

impl std::str::FromStr for ProviderType {
    type Err = String;

    fn from_str(s: &str) -> (r: Result<Self, Self::Err>)
        ensures
            match provider_from_lowercase(lowercase(s@)) {
                Some(p) => r == Ok::<ProviderType, String>(p),
                None => r is Err && r->Err_0@ == "Unknown provider: "@ + s@,
            },
    {
        Self::parse_name(s)
    }
}

/// The protocol used for Git operations.
#[derive(Debug, Clone, Copy, PartialEq, Eq, Structural)]
pub enum Protocol {
    Https,
    Ssh,
}

impl Protocol {
    /// `HTTPS` or `SSH`.
    pub fn to_string(&self) -> (r: String)
        ensures
            r@ == (match *self {
                Protocol::Https => "HTTPS"@,
                Protocol::Ssh => "SSH"@,
            }),
    {
        match self {
            Protocol::Https => owned("HTTPS"),
            Protocol::Ssh => owned("SSH"),
        }
    }
}

/// A Git hosting remote.
pub struct Remote {
    /// Remote name (e.g. `github`).
    pub name: String,
    /// Provider type.
    pub provider: ProviderType,
    /// Username on the platform.
    pub username: String,
    /// Custom API URL for self-hosted instances.
    pub api_url: Option<String>,
    /// Whether the remote takes part in sync operations.
    pub enabled: bool,
    /// Use SSH instead of HTTPS.
    pub use_ssh: bool,
    /// Priority for conflict resolution (higher is preferred).
    pub priority: i32,
}

impl Remote {
    /// A new remote: enabled, over HTTPS, priority 0, no custom API URL.
    pub fn new(name: &str, provider: ProviderType, username: &str) -> (r: Self)
        ensures
            r.name@ == name@,
            r.provider == provider,
            r.username@ == username@,
            r.api_url is None,
            r.enabled,
            !r.use_ssh,
            r.priority == 0,
    {
        Remote {
            name: owned(name),
            provider,
            username: owned(username),
            api_url: None,
            enabled: true,
            use_ssh: false,
            priority: 0,
        }
    }

    /// The same remote with a custom API URL.
    pub fn with_api_url(self, url: &str) -> (r: Self)
        ensures
            r.api_url is Some && r.api_url->0@ == url@,
            r.name == self.name,
            r.provider == self.provider,
            r.username == self.username,
            r.enabled == self.enabled,
            r.use_ssh == self.use_ssh,
            r.priority == self.priority,
    {
        Remote { api_url: Some(owned(url)), ..self }
    }

    /// The same remote over SSH.
    pub fn with_ssh(self) -> (r: Self)
        ensures
            r == (Remote { use_ssh: true, ..self }),
    {
        Remote { use_ssh: true, ..self }
    }

    /// The same remote with another priority.
    pub fn with_priority(self, priority: i32) -> (r: Self)
        ensures
            r == (Remote { priority, ..self }),
    {
        Remote { priority, ..self }
    }

    /// The same remote, disabled.
    pub fn disabled(self) -> (r: Self)
        ensures
            r == (Remote { enabled: false, ..self }),
    {
        Remote { enabled: false, ..self }
    }

    /// The name of the Git remote: `multigit-<name>`.
    pub fn git_remote_name(&self) -> (r: String)
        ensures
            r@ == "multigit-"@ + self.name@,
    {
        concat2("multigit-", self.name.as_str())
    }
}

/// Rate limit information from a provider.
pub struct RateLimit {
    /// Requests allowed in the window.
    pub limit: u32,
    /// Requests left in the window.
    pub remaining: u32,
    /// When the window resets, in milliseconds since the Unix epoch.
    pub reset_at: i64,
}

impl RateLimit {
    /// Whether fewer than a tenth of the requests are left.
    pub fn is_low(&self) -> (r: bool)
        ensures
            r == (self.remaining < self.limit / 10),
    {
        self.remaining < self.limit / 10
    }

    /// Whether no request is left.
    pub fn is_exceeded(&self) -> (r: bool)
        ensures
            r == (self.remaining == 0),
    {
        self.remaining == 0
    }

    /// Milliseconds from `now` (milliseconds since the Unix epoch) until the reset.
    pub fn time_until_reset_from(&self, now: i64) -> (r: i128)
        ensures
            r == self.reset_at - now,
    {
        self.reset_at as i128 - now as i128
    }

    /// Milliseconds from the current time until the reset.
    pub fn time_until_reset(&self) -> (r: i128)
        ensures
            self.reset_at - i64::MAX <= r <= self.reset_at - i64::MIN,
    {
        let now = crate::clock::now_millis();
        self.time_until_reset_from(now)
    }
}

} // verus!
