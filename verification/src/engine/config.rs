//! Configuration: settings, sync, security, daemon and the configured remotes,
//! merged from layers where a later layer wins.
use vstd::prelude::*;

use crate::error::MultiGitError;
use crate::models::config::{
    AuthBackend, DaemonConfig, SecurityConfig, Settings, SyncConfig, SyncStrategy,
};
use crate::named_map::{map_of, NamedMap};
use crate::text::{concat2, owned, str_equal};

verus! {

/// A remote as the configuration file records it.
pub struct RemoteConfig {
    /// Username on the provider.
    pub username: String,
    /// Custom API URL (self-hosted instances).
    pub api_url: Option<String>,
    /// Whether the remote takes part in sync operations.
    pub enabled: bool,
    /// Provider type (github, gitlab, ...).
    pub provider: Option<String>,
    /// Use SSH instead of HTTPS.
    pub use_ssh: bool,
    /// Priority for conflict resolution.
    pub priority: i32,
}

/// A copy of an optional string.
pub fn copy_opt_string(s: &Option<String>) -> (r: Option<String>)
    ensures
        r == *s,
{
    match s {
        Some(x) => Some(x.clone()),
        None => None,
    }
}

impl RemoteConfig {
    /// A field-for-field copy.
    pub fn copy(&self) -> (r: Self)
        ensures
            r == *self,
    {
        RemoteConfig {
            username: self.username.clone(),
            api_url: copy_opt_string(&self.api_url),
            enabled: self.enabled,
            provider: copy_opt_string(&self.provider),
            use_ssh: self.use_ssh,
            priority: self.priority,
        }
    }
}

/// The whole configuration.
pub struct Config {
    /// General settings.
    pub settings: Settings,
    /// Synchronization settings.
    pub sync: SyncConfig,
    /// Security settings.
    pub security: SecurityConfig,
    /// Daemon settings.
    pub daemon: DaemonConfig,
    /// Configured remotes by name.
    pub remotes: NamedMap<RemoteConfig>,
}

/// The path of the directory, relative to a repository, that holds its configuration.
pub open spec fn repo_config_dir_text() -> Seq<char> {
    ".multigit"@
}

/// `base` with the relative component `comp` appended, as `Path::join` forms it on Unix.
pub open spec fn path_join_spec(base: Seq<char>, comp: Seq<char>) -> Seq<char> {
    if base.len() == 0 || base.last() == '/' {
        base + comp
    } else {
        base + "/"@ + comp
    }
}

/// Appends a relative component to a path.
pub fn path_join(base: &str, comp: &str) -> (r: String)
    ensures
        r@ == path_join_spec(base@, comp@),
{
    let n = base.unicode_len();
    if n == 0 || base.get_char(n - 1) == '/' {
        concat2(base, comp)
    } else {
        let mut r = concat2(base, "/");
        r.append(comp);
        r
    }
}

/// Calls `dirs::config_dir`, the user's configuration directory, as text (a name that
/// is not UTF-8 is converted lossily). The answer depends on the environment; nothing
/// is claimed of it.
#[verifier::external_body]
pub(crate) fn user_config_base() -> (r: Option<String>) {
    match dirs::config_dir() {
        Some(p) => Some(p.to_string_lossy().into_owned()),
        None => None,
    }
}

/// `d` is the default configuration: branch `main`, parallel pushes (at most four),
/// coloured output at verbosity one; fast-forward sync with conflict detection and
/// nothing automatic; keyring credentials over the SSH agent; the daemon off; no remotes.
pub open spec fn default_config(d: Config) -> bool {
    &&& d.settings.default_branch@ == "main"@
    &&& d.settings.parallel_push
    &&& d.settings.max_parallel == 4
    &&& d.settings.colored_output
    &&& d.settings.verbosity == 1
    &&& !d.sync.auto_sync
    &&& d.sync.primary_source is None
    &&& d.sync.strategy == SyncStrategy::FastForward
    &&& d.sync.include_branches@.len() == 0
    &&& d.sync.exclude_branches@.len() == 0
    &&& d.sync.detect_conflicts
    &&& !d.sync.auto_resolve
    &&& d.security.auth_backend == AuthBackend::Keyring
    &&& !d.security.audit_log
    &&& d.security.encryption_key_path is None
    &&& d.security.ssh_agent
    &&& !d.daemon.enabled
    &&& d.daemon.interval_seconds == 0
    &&& !d.daemon.background
    &&& d.daemon.log_file is None
    &&& d.daemon.pid_file is None
    &&& d.remotes.wf()
    &&& d.remotes@ == Map::<Seq<char>, RemoteConfig>::empty()
}

/// `r` is `a` with `b` merged into it, `b` having priority: `b`'s remotes replace `a`'s
/// of the same name; each of `b`'s settings that is not the default replaces `a`'s (the
/// default branch unless it is `main`, the strategy unless it is fast-forward, conflict
/// detection when turned off, auto-sync and auto-resolve when turned on, the primary
/// source when given, branch lists when not empty, the daemon section when it enables
/// the daemon); `b`'s general switches and security section always replace `a`'s.
pub open spec fn merge_result(a: Config, b: Config, r: Config) -> bool {
    &&& r.remotes@ == a.remotes@.union_prefer_right(b.remotes@)
    &&& r.settings.default_branch == (if b.settings.default_branch@ != "main"@ {
        b.settings.default_branch
    } else {
        a.settings.default_branch
    })
    &&& r.settings.parallel_push == b.settings.parallel_push
    &&& r.settings.max_parallel == b.settings.max_parallel
    &&& r.settings.colored_output == b.settings.colored_output
    &&& r.settings.verbosity == b.settings.verbosity
    &&& r.sync.auto_sync == (if b.sync.auto_sync {
        true
    } else {
        a.sync.auto_sync
    })
    &&& r.sync.primary_source == (if b.sync.primary_source is Some {
        b.sync.primary_source
    } else {
        a.sync.primary_source
    })
    &&& r.sync.include_branches == (if b.sync.include_branches@.len() > 0 {
        b.sync.include_branches
    } else {
        a.sync.include_branches
    })
    &&& r.sync.exclude_branches == (if b.sync.exclude_branches@.len() > 0 {
        b.sync.exclude_branches
    } else {
        a.sync.exclude_branches
    })
    &&& r.sync.strategy == (if b.sync.strategy != SyncStrategy::FastForward {
        b.sync.strategy
    } else {
        a.sync.strategy
    })
    &&& r.sync.detect_conflicts == (if !b.sync.detect_conflicts {
        false
    } else {
        a.sync.detect_conflicts
    })
    &&& r.sync.auto_resolve == (if b.sync.auto_resolve {
        true
    } else {
        a.sync.auto_resolve
    })
    &&& r.security == b.security
    &&& r.daemon == (if b.daemon.enabled {
        b.daemon
    } else {
        a.daemon
    })
}

/// `r` comes from the defaults `d` through `m`, the defaults with the user's
/// configuration (if any) merged over them, with the repository's configuration (if any)
/// merged over `m`.
pub open spec fn layered_through(
    user: Option<Config>,
    repo: Option<Config>,
    d: Config,
    m: Config,
    r: Config,
) -> bool {
    &&& default_config(d)
    &&& match user {
        Some(u) => merge_result(d, u, m),
        None => m == d,
    }
    &&& match repo {
        Some(c) => merge_result(m, c, r),
        None => r == m,
    }
}

/// `r` is what layering gives: the defaults, with the user's configuration (if any)
/// merged over them, and the repository's configuration (if any) merged over that.
pub open spec fn layered(user: Option<Config>, repo: Option<Config>, r: Config) -> bool {
    exists|d: Config, m: Config| #[trigger] layered_through(user, repo, d, m, r)
}

impl Default for Config {
    fn default() -> (r: Self)
        ensures
            default_config(r),
    {
        Config {
            settings: Settings::default(),
            sync: SyncConfig::default(),
            security: SecurityConfig::default(),
            daemon: DaemonConfig::default(),
            remotes: NamedMap::new(),
        }
    }
}

impl Config {
    /// Well formed: each remote name at most once.
    pub open spec fn wf(&self) -> bool {
        self.remotes.wf()
    }

    /// The user's configuration directory: `multigit` under the platform's
    /// configuration directory.
    pub fn user_config_dir() -> (r: Result<String, MultiGitError>)
        ensures
            match r {
                Ok(p) => exists|base: Seq<char>| p@ == path_join_spec(base, "multigit"@),
                Err(e) => e is Config && e->Config_0@ == "Cannot determine config directory"@,
            },
    {
        match user_config_base() {
            Some(base) => Ok(path_join(base.as_str(), "multigit")),
            None => Err(MultiGitError::Config(owned("Cannot determine config directory"))),
        }
    }

    /// The user's configuration file: `config.toml` in the user's configuration directory.
    pub fn user_config_path() -> (r: Result<String, MultiGitError>)
        ensures
            match r {
                Ok(p) => exists|base: Seq<char>|
                    p@ == path_join_spec(path_join_spec(base, "multigit"@), "config.toml"@),
                Err(e) => e is Config && e->Config_0@ == "Cannot determine config directory"@,
            },
    {
        match Self::user_config_dir() {
            Ok(dir) => Ok(path_join(dir.as_str(), "config.toml")),
            Err(e) => Err(e),
        }
    }

    /// The repository's configuration directory.
    pub fn repo_config_dir() -> (r: String)
        ensures
            r@ == repo_config_dir_text(),
    {
        owned(".multigit")
    }

    /// The repository's configuration file.
    pub fn repo_config_path() -> (r: String)
        ensures
            r@ == path_join_spec(repo_config_dir_text(), "config.toml"@),
            r@ == ".multigit/config.toml"@,
    {
        let d = Self::repo_config_dir();
        let r = path_join(d.as_str(), "config.toml");
        proof {
            reveal_strlit(".multigit");
            reveal_strlit("/");
            reveal_strlit("config.toml");
            reveal_strlit(".multigit/config.toml");
        }
        assert(".multigit"@ + "/"@ + "config.toml"@ =~= ".multigit/config.toml"@);
        r
    }

    /// Merges `other` into this configuration, `other` having priority (see
    /// `merge_result`).
    pub fn merge(self, other: Config) -> (r: Config)
        requires
            self.wf(),
            other.wf(),
        ensures
            r.wf(),
            merge_result(self, other, r),
    {
        let Config { settings, sync, security, daemon, remotes } = other;
        let mut base = self;
        let ghost first = base;
        let ghost start = base.remotes@;
        let mut entries = remotes.into_entries();
        let ghost all = entries@;
        let ghost mut taken: int = 0;
        assert(all.take(0) =~= Seq::<(String, RemoteConfig)>::empty());
        assert(start.union_prefer_right(map_of(all.take(0))) =~= start);
        while entries.len() > 0
            invariant
                base.remotes.wf(),
                base.settings == first.settings,
                base.sync == first.sync,
                base.security == first.security,
                base.daemon == first.daemon,
                0 <= taken <= all.len(),
                entries@ == all.skip(taken),
                base.remotes@ == start.union_prefer_right(map_of(all.take(taken))),
            decreases entries@.len(),
        {
            let (name, value) = entries.remove(0);
            assert(all.take(taken + 1).drop_last() =~= all.take(taken));
            assert(all[taken] == (name, value));
            base.remotes.insert(name, value);
            assert(base.remotes@ =~= start.union_prefer_right(map_of(all.take(taken + 1))));
            proof {
                taken = taken + 1;
            }
            assert(entries@ =~= all.skip(taken));
        }
        assert(all.take(taken) =~= all);
        if !str_equal(settings.default_branch.as_str(), "main") {
            base.settings.default_branch = settings.default_branch;
        }
        base.settings.parallel_push = settings.parallel_push;
        base.settings.max_parallel = settings.max_parallel;
        base.settings.colored_output = settings.colored_output;
        base.settings.verbosity = settings.verbosity;
        if sync.auto_sync {
            base.sync.auto_sync = true;
        }
        if sync.primary_source.is_some() {
            base.sync.primary_source = sync.primary_source;
        }
        if sync.include_branches.len() > 0 {
            base.sync.include_branches = sync.include_branches;
        }
        if sync.exclude_branches.len() > 0 {
            base.sync.exclude_branches = sync.exclude_branches;
        }
        if sync.strategy != SyncStrategy::FastForward {
            base.sync.strategy = sync.strategy;
        }
        if !sync.detect_conflicts {
            base.sync.detect_conflicts = false;
        }
        if sync.auto_resolve {
            base.sync.auto_resolve = true;
        }
        base.security = security;
        if daemon.enabled {
            base.daemon = daemon;
        }
        base
    }

    /// The configuration that loading builds: defaults, then the user's file, then the
    /// repository's file, each merged over what came before.
    pub fn from_layers(user: Option<Config>, repo: Option<Config>) -> (r: Config)
        requires
            user matches Some(u) ==> u.wf(),
            repo matches Some(c) ==> c.wf(),
        ensures
            r.wf(),
            layered(user, repo, r),
            r.remotes@ == (match user {
                Some(u) => u.remotes@,
                None => Map::empty(),
            }).union_prefer_right(
                match repo {
                    Some(c) => c.remotes@,
                    None => Map::empty(),
                },
            ),
    {
        let mut config = Config::default();
        let ghost d = config;
        match user {
            Some(u) => {
                config = config.merge(u);
            },
            None => {},
        }
        let ghost m = config;
        assert(config.remotes@ =~= (match user {
            Some(u) => u.remotes@,
            None => Map::<Seq<char>, RemoteConfig>::empty(),
        }));
        match repo {
            Some(c) => {
                config = config.merge(c);
            },
            None => {
                assert(config.remotes@.union_prefer_right(Map::<Seq<char>, RemoteConfig>::empty())
                    =~= config.remotes@);
            },
        }
        assert(layered_through(user, repo, d, m, config));
        config
    }

    /// Adds or replaces the remote `name`.
    pub fn add_remote(&mut self, name: String, config: RemoteConfig)
        requires
            old(self).wf(),
        ensures
            final(self).wf(),
            final(self).remotes@ == old(self).remotes@.insert(name@, config),
            final(self).settings == old(self).settings,
            final(self).sync == old(self).sync,
            final(self).security == old(self).security,
            final(self).daemon == old(self).daemon,
    {
        self.remotes.insert(name, config);
    }

    /// Removes the remote `name`, returning its configuration if it was there.
    pub fn remove_remote(&mut self, name: &str) -> (r: Option<RemoteConfig>)
        requires
            old(self).wf(),
        ensures
            final(self).wf(),
            final(self).remotes@ == old(self).remotes@.remove(name@),
            match r {
                Some(c) => old(self).remotes@.contains_key(name@) && c == old(self).remotes@[name@],
                None => !old(self).remotes@.contains_key(name@),
            },
            final(self).settings == old(self).settings,
            final(self).sync == old(self).sync,
            final(self).security == old(self).security,
            final(self).daemon == old(self).daemon,
    {
        self.remotes.remove(name)
    }

    /// The configuration of remote `name`.
    pub fn get_remote(&self, name: &str) -> (r: Option<&RemoteConfig>)
        requires
            self.wf(),
        ensures
            match r {
                Some(c) => self.remotes@.contains_key(name@) && *c == self.remotes@[name@],
                None => !self.remotes@.contains_key(name@),
            },
    {
        self.remotes.get(name)
    }

    /// The remotes that are enabled, by name.
    pub fn enabled_remotes(&self) -> (r: NamedMap<RemoteConfig>)
        requires
            self.wf(),
        ensures
            r.wf(),
            r@ == self.remotes@.restrict(
                self.remotes@.dom().filter(|k: Seq<char>| self.remotes@[k].enabled),
            ),
    {
        let mut out: NamedMap<RemoteConfig> = NamedMap::new();
        let n = self.remotes.len();
        let ghost e = self.remotes.entries();
        let mut i: usize = 0;
        while i < n
            invariant
                self.wf(),
                e == self.remotes.entries(),
                n == e.len(),
                i <= n,
                out.wf(),
                out@ == map_of(e.take(i as int)).restrict(
                    map_of(e.take(i as int)).dom().filter(
                        |k: Seq<char>| map_of(e.take(i as int))[k].enabled,
                    ),
                ),
            decreases n - i,
        {
            let (name, cfg) = self.remotes.entry(i);
            let ghost prev = map_of(e.take(i as int));
            assert(e.take(i + 1).drop_last() =~= e.take(i as int));
            assert(e.take(i + 1).last() == e[i as int]);
            if cfg.enabled {
                out.insert(name.clone(), cfg.copy());
            }
            proof {
                lemma_names_distinct_prefix_excludes(e, i as int);
            }
            let ghost next = map_of(e.take(i + 1));
            assert(out@ =~= next.restrict(next.dom().filter(|k: Seq<char>| next[k].enabled)));
            i = i + 1;
        }
        assert(e.take(n as int) =~= e);
        out
    }
}

/// Merging `b` over `a` lets `b` win wherever `b` departs from the defaults `d`: each of
/// its remotes, a default branch other than `main`, a strategy other than
/// fast-forward, conflict detection turned off, auto-sync or auto-resolve turned on, a
/// primary source, a non-empty include or exclude list, an enabled daemon. Where `b`
/// keeps the default, `a`'s value stays. `b`'s general switches and security settings
/// always win.
pub proof fn law_later_layer_wins(a: Config, b: Config, d: Config, r: Config)
    requires
        default_config(d),
        merge_result(a, b, r),
    ensures
        forall|k: Seq<char>| #[trigger]
            b.remotes@.contains_key(k) ==> r.remotes@.contains_key(k) && r.remotes@[k]
                == b.remotes@[k],
        forall|k: Seq<char>|
            #[trigger] a.remotes@.contains_key(k) && !b.remotes@.contains_key(k)
                ==> r.remotes@.contains_key(k) && r.remotes@[k] == a.remotes@[k],
        forall|k: Seq<char>| #[trigger]
            r.remotes@.contains_key(k) ==> a.remotes@.contains_key(k) || b.remotes@.contains_key(k),
        b.settings.default_branch@ != d.settings.default_branch@ ==> r.settings.default_branch
            == b.settings.default_branch,
        b.settings.default_branch@ == d.settings.default_branch@ ==> r.settings.default_branch
            == a.settings.default_branch,
        r.settings.parallel_push == b.settings.parallel_push,
        r.settings.max_parallel == b.settings.max_parallel,
        r.settings.colored_output == b.settings.colored_output,
        r.settings.verbosity == b.settings.verbosity,
        b.sync.auto_sync != d.sync.auto_sync ==> r.sync.auto_sync == b.sync.auto_sync,
        b.sync.auto_sync == d.sync.auto_sync ==> r.sync.auto_sync == a.sync.auto_sync,
        b.sync.primary_source != d.sync.primary_source ==> r.sync.primary_source
            == b.sync.primary_source,
        b.sync.primary_source == d.sync.primary_source ==> r.sync.primary_source
            == a.sync.primary_source,
        b.sync.strategy != d.sync.strategy ==> r.sync.strategy == b.sync.strategy,
        b.sync.strategy == d.sync.strategy ==> r.sync.strategy == a.sync.strategy,
        b.sync.include_branches@.len() != 0 ==> r.sync.include_branches
            == b.sync.include_branches,
        b.sync.include_branches@.len() == 0 ==> r.sync.include_branches
            == a.sync.include_branches,
        b.sync.exclude_branches@.len() != 0 ==> r.sync.exclude_branches
            == b.sync.exclude_branches,
        b.sync.exclude_branches@.len() == 0 ==> r.sync.exclude_branches
            == a.sync.exclude_branches,
        b.sync.detect_conflicts != d.sync.detect_conflicts ==> r.sync.detect_conflicts
            == b.sync.detect_conflicts,
        b.sync.detect_conflicts == d.sync.detect_conflicts ==> r.sync.detect_conflicts
            == a.sync.detect_conflicts,
        b.sync.auto_resolve != d.sync.auto_resolve ==> r.sync.auto_resolve
            == b.sync.auto_resolve,
        b.sync.auto_resolve == d.sync.auto_resolve ==> r.sync.auto_resolve
            == a.sync.auto_resolve,
        r.security == b.security,
        b.daemon.enabled != d.daemon.enabled ==> r.daemon == b.daemon,
        b.daemon.enabled == d.daemon.enabled ==> r.daemon == a.daemon,
{
}

/// Merging a configuration over the defaults gives back each section and setting of it
/// that departs from the defaults; in particular a non-empty include or exclude list.
pub proof fn law_merge_over_defaults_keeps_the_layer(d: Config, b: Config, r: Config)
    requires
        default_config(d),
        merge_result(d, b, r),
    ensures
        r.remotes@ == b.remotes@,
        b.sync.include_branches@.len() != 0 ==> r.sync.include_branches
            == b.sync.include_branches,
        r.sync.include_branches@.len() == b.sync.include_branches@.len(),
        b.sync.exclude_branches@.len() != 0 ==> r.sync.exclude_branches
            == b.sync.exclude_branches,
        r.sync.exclude_branches@.len() == b.sync.exclude_branches@.len(),
        r.sync.strategy == b.sync.strategy,
        r.sync.detect_conflicts == b.sync.detect_conflicts,
        r.sync.auto_resolve == b.sync.auto_resolve,
        r.sync.auto_sync == b.sync.auto_sync,
        r.sync.primary_source == b.sync.primary_source,
        r.settings.default_branch@ == b.settings.default_branch@,
        r.security == b.security,
{
    assert(r.remotes@ =~= b.remotes@);
}

/// Reading a remote right after adding it gives what was added; after removing it, it is
/// gone; other remotes are untouched by either.
pub proof fn law_remote_read_after_write(
    remotes: Map<Seq<char>, RemoteConfig>,
    name: Seq<char>,
    config: RemoteConfig,
    other: Seq<char>,
)
    requires
        other != name,
    ensures
        remotes.insert(name, config).contains_key(name),
        remotes.insert(name, config)[name] == config,
        !remotes.remove(name).contains_key(name),
        remotes.insert(name, config).contains_key(other) == remotes.contains_key(other),
        remotes.remove(name).contains_key(other) == remotes.contains_key(other),
        remotes.contains_key(other) ==> remotes.insert(name, config)[other] == remotes[other]
            && remotes.remove(name)[other] == remotes[other],
{
}

/// With distinct names, entry `i`'s name is not among the entries before it.
proof fn lemma_names_distinct_prefix_excludes(e: Seq<(String, RemoteConfig)>, i: int)
    requires
        crate::named_map::names_distinct(e),
        0 <= i < e.len(),
    ensures
        !map_of(e.take(i)).contains_key(e[i].0@),
{
    crate::named_map::lemma_map_of_domain(e.take(i), e[i].0@);
    if map_of(e.take(i)).contains_key(e[i].0@) {
        let j = choose|j: int| 0 <= j < e.take(i).len() && e.take(i)[j].0@ == e[i].0@;
        assert(e[j].0@ == e[i].0@);
    }
}

} // verus!
