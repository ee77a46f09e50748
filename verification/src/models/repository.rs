//! Repositories on hosting providers, the settings to create one, and local clones.
use vstd::prelude::*;

use crate::text::owned;

verus! {

/// A repository with its metadata from a hosting provider.
pub struct Repository {
    /// Repository name.
    pub name: String,
    /// Full name including the owner (`owner/repo`).
    pub full_name: Option<String>,
    /// HTTPS clone URL.
    pub url: String,
    /// SSH clone URL.
    pub ssh_url: String,
    /// Whether the repository is private.
    pub private: bool,
    /// Default branch name.
    pub default_branch: String,
    /// Description.
    pub description: Option<String>,
    /// Web page of the repository.
    pub html_url: Option<String>,
    /// Creation time, in milliseconds since the Unix epoch.
    pub created_at: Option<i64>,
    /// Last update time, in milliseconds since the Unix epoch.
    pub updated_at: Option<i64>,
}

impl Repository {
    /// A repository with the required fields; the optional ones are absent.
    pub fn new(name: &str, url: &str, ssh_url: &str, private: bool, default_branch: &str) -> (r:
        Self)
        ensures
            r.name@ == name@,
            r.url@ == url@,
            r.ssh_url@ == ssh_url@,
            r.private == private,
            r.default_branch@ == default_branch@,
            r.full_name is None,
            r.description is None,
            r.html_url is None,
            r.created_at is None,
            r.updated_at is None,
    {
        Repository {
            name: owned(name),
            full_name: None,
            url: owned(url),
            ssh_url: owned(ssh_url),
            private,
            default_branch: owned(default_branch),
            description: None,
            html_url: None,
            created_at: None,
            updated_at: None,
        }
    }

    /// The same repository with its full name set.
    pub fn with_full_name(self, full_name: &str) -> (r: Self)
        ensures
            r.full_name is Some && r.full_name->0@ == full_name@,
            r == (Repository { full_name: r.full_name, ..self }),
    {
        Repository { full_name: Some(owned(full_name)), ..self }
    }

    /// The same repository with its description set.
    pub fn with_description(self, description: &str) -> (r: Self)
        ensures
            r.description is Some && r.description->0@ == description@,
            r == (Repository { description: r.description, ..self }),
    {
        Repository { description: Some(owned(description)), ..self }
    }

    /// The same repository with its web URL set.
    pub fn with_html_url(self, html_url: &str) -> (r: Self)
        ensures
            r.html_url is Some && r.html_url->0@ == html_url@,
            r == (Repository { html_url: r.html_url, ..self }),
    {
        Repository { html_url: Some(owned(html_url)), ..self }
    }
}

/// Settings for creating a repository on a hosting provider.
pub struct RepoConfig {
    /// Repository name.
    pub name: String,
    /// Description.
    pub description: Option<String>,
    /// Whether the repository is private.
    pub private: bool,
    /// Default branch name.
    pub default_branch: String,
    /// Initialize with a README.
    pub auto_init: bool,
    /// `.gitignore` template.
    pub gitignore_template: Option<String>,
    /// License template.
    pub license_template: Option<String>,
}

impl RepoConfig {
    /// Settings for a public repository on `main`, without README or templates.
    pub fn new(name: &str) -> (r: Self)
        ensures
            r.name@ == name@,
            r.description is None,
            !r.private,
            r.default_branch@ == "main"@,
            !r.auto_init,
            r.gitignore_template is None,
            r.license_template is None,
    {
        RepoConfig {
            name: owned(name),
            description: None,
            private: false,
            default_branch: owned("main"),
            auto_init: false,
            gitignore_template: None,
            license_template: None,
        }
    }

    /// The same settings for a private repository.
    pub fn private(self) -> (r: Self)
        ensures
            r == (RepoConfig { private: true, ..self }),
    {
        RepoConfig { private: true, ..self }
    }

    /// The same settings with a description.
    pub fn with_description(self, description: &str) -> (r: Self)
        ensures
            r.description is Some && r.description->0@ == description@,
            r == (RepoConfig { description: r.description, ..self }),
    {
        RepoConfig { description: Some(owned(description)), ..self }
    }

    /// The same settings with another default branch.
    pub fn with_branch(self, branch: &str) -> (r: Self)
        ensures
            r.default_branch@ == branch@,
            r == (RepoConfig { default_branch: r.default_branch, ..self }),
    {
        RepoConfig { default_branch: owned(branch), ..self }
    }

    /// The same settings, initializing with a README.
    pub fn auto_init(self) -> (r: Self)
        ensures
            r == (RepoConfig { auto_init: true, ..self }),
    {
        RepoConfig { auto_init: true, ..self }
    }
}

/// A local clone.
pub struct LocalRepo {
    /// Path of the clone.
    pub path: String,
    /// Current branch.
    pub current_branch: Option<String>,
    /// Whether the working directory is clean.
    pub is_clean: bool,
    /// Commits ahead of the remote.
    pub ahead: usize,
    /// Commits behind the remote.
    pub behind: usize,
    /// Last sync time, in milliseconds since the Unix epoch.
    pub last_sync: Option<i64>,
}

impl LocalRepo {
    /// A clean clone at `path`, in sync, never synced before.
    pub fn new(path: &str) -> (r: Self)
        ensures
            r.path@ == path@,
            r.current_branch is None,
            r.is_clean,
            r.ahead == 0,
            r.behind == 0,
            r.last_sync is None,
    {
        LocalRepo {
            path: owned(path),
            current_branch: None,
            is_clean: true,
            ahead: 0,
            behind: 0,
            last_sync: None,
        }
    }

    /// Whether there are uncommitted changes.
    pub fn has_changes(&self) -> (r: bool)
        ensures
            r == !self.is_clean,
    {
        !self.is_clean
    }

    /// Whether the clone is neither ahead nor behind.
    pub fn is_synced(&self) -> (r: bool)
        ensures
            r == (self.ahead == 0 && self.behind == 0),
    {
        self.ahead == 0 && self.behind == 0
    }
}

} // verus!
