//! Which remotes the push, fetch and pull commands work on, and what their outcomes add
//! up to.
use vstd::prelude::*;

use crate::engine::config::Config;
use crate::engine::sync_manager::{count_pushed, pushes_succeeded, PushResult};
use crate::error::MultiGitError;
use crate::text::{concat2, concat3, decimal, decimal_spec, owned, strings_view};

verus! {

/// The names of the enabled remotes of a configuration.
pub open spec fn enabled_names(config: Config) -> Set<Seq<char>> {
    config.remotes@.dom().filter(|k: Seq<char>| config.remotes@[k].enabled)
}

/// The names of the enabled remotes, each once.
pub fn enabled_remote_names(config: &Config) -> (r: Vec<String>)
    requires
        config.wf(),
    ensures
        strings_view(r@).to_set() == enabled_names(*config),
        strings_view(r@).no_duplicates(),
{
    let enabled = config.enabled_remotes();
    let names = enabled.keys();
    proof {
        assert(enabled@.dom() =~= enabled_names(*config));
    }
    names
}

/// The remotes a push goes to: those asked for, else every enabled remote.
pub fn push_targets(requested: Vec<String>, config: &Config) -> (r: Vec<String>)
    requires
        config.wf(),
    ensures
        requested@.len() > 0 ==> r@ == requested@,
        requested@.len() == 0 ==> strings_view(r@).to_set() == enabled_names(*config)
            && strings_view(r@).no_duplicates(),
{
    if requested.len() > 0 {
        requested
    } else {
        enabled_remote_names(config)
    }
}

/// What a fetch goes to.
pub enum FetchTargets {
    /// These remotes, through MultiGit.
    Remotes(Vec<String>),
    /// Every Git remote, through `git fetch --all`.
    GitFetchAll,
}

/// The remotes a fetch goes to: with `all`, every enabled remote (or every Git remote
/// when none is enabled); else those asked for, else `origin`.
pub fn fetch_targets(requested: Vec<String>, all: bool, config: &Config) -> (r: FetchTargets)
    requires
        config.wf(),
    ensures
        all && enabled_names(*config).len() == 0 ==> r is GitFetchAll,
        all && enabled_names(*config).len() > 0 ==> (r matches FetchTargets::Remotes(v)
            && strings_view(v@).to_set() == enabled_names(*config) && strings_view(v@).no_duplicates()),
        !all && requested@.len() > 0 ==> (r matches FetchTargets::Remotes(v) && v@ == requested@),
        !all && requested@.len() == 0 ==> (r matches FetchTargets::Remotes(v) && strings_view(v@)
            == seq!["origin"@]),
{
    if all {
        let names = enabled_remote_names(config);
        proof {
            strings_view(names@).unique_seq_to_set();
            assert(enabled_names(*config).finite());
        }
        if names.len() == 0 {
            assert(strings_view(names@).len() == 0);
            FetchTargets::GitFetchAll
        } else {
            FetchTargets::Remotes(names)
        }
    } else if requested.len() > 0 {
        FetchTargets::Remotes(requested)
    } else {
        let v = vec![owned("origin")];
        assert(strings_view(v@) =~= seq!["origin"@]);
        FetchTargets::Remotes(v)
    }
}

/// The outcome of pushing to several remotes: the number that succeeded, or
/// `<n> push(es) failed` when some failed.
pub fn push_outcome(results: &Vec<PushResult>) -> (r: Result<usize, MultiGitError>)
    ensures
        pushes_succeeded(results@) <= results@.len(),
        pushes_succeeded(results@) == results@.len() ==> r == Ok::<usize, MultiGitError>(
            results@.len() as usize,
        ),
        pushes_succeeded(results@) < results@.len() ==> r is Err && r->Err_0 is Other
            && r->Err_0->Other_0@ == decimal_spec((results@.len() - pushes_succeeded(results@)) as nat)
            + " push(es) failed"@,
{
    let ok = count_pushed(results);
    proof {
        lemma_pushes_bounded(results@);
    }
    let failed = results.len() - ok;
    if failed == 0 {
        Ok(results.len())
    } else {
        let n = decimal(failed as u64);
        Err(MultiGitError::Other(concat2(n.as_str(), " push(es) failed")))
    }
}

/// No more pushes succeed than were made.
pub proof fn lemma_pushes_bounded(results: Seq<PushResult>)
    ensures
        pushes_succeeded(results) <= results.len(),
    decreases results.len(),
{
    if results.len() > 0 {
        lemma_pushes_bounded(results.drop_last());
    }
}

/// The local branch reference `refs/heads/<branch>`.
pub fn local_branch_ref(branch: &str) -> (r: String)
    ensures
        r@ == "refs/heads/"@ + branch@,
{
    concat2("refs/heads/", branch)
}

/// The remote-tracking reference `refs/remotes/<remote>/<branch>`.
pub fn remote_tracking_ref(remote: &str, branch: &str) -> (r: String)
    ensures
        r@ == "refs/remotes/"@ + remote@ + "/"@ + branch@,
{
    let mut r = concat3("refs/remotes/", remote, "/");
    r.append(branch);
    r
}

/// The error for a path that holds no Git repository.
pub fn not_a_repository(path: &str) -> (r: MultiGitError)
    ensures
        r is Other && r->Other_0@ == "Not a git repository: "@ + path@
            + "\n\nRun 'git init' first."@,
{
    MultiGitError::Other(concat3("Not a git repository: ", path, "\n\nRun 'git init' first."))
}

} // verus!
