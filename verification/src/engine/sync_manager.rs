//! Pushing to and fetching from several remotes: refspecs, per-remote results and the
//! sync status of a branch against each remote.
use vstd::prelude::*;

use crate::text::{concat2, owned};

verus! {

/// The outcome of pushing to one remote.
#[derive(Debug, Clone)]
pub struct PushResult {
    /// Name of the remote.
    pub remote: String,
    /// Whether the push succeeded.
    pub success: bool,
    /// What happened.
    pub message: String,
    /// How long it took, in milliseconds.
    pub duration_ms: u64,
}

/// The outcome of fetching from one remote.
#[derive(Debug, Clone)]
pub struct FetchResult {
    /// Name of the remote.
    pub remote: String,
    /// Whether the fetch succeeded.
    pub success: bool,
    /// What happened.
    pub message: String,
    /// Commits fetched.
    pub commits_fetched: usize,
}

/// How a branch stands against one remote.
#[derive(Debug, Clone)]
pub struct SyncStatus {
    /// Name of the remote.
    pub remote: String,
    /// Local commits the remote lacks.
    pub ahead: usize,
    /// Remote commits the local branch lacks.
    pub behind: usize,
    /// Whether neither side has commits the other lacks.
    pub in_sync: bool,
}

/// Pushes and fetches one repository against several remotes at a time.
pub struct SyncManager {
    workdir: String,
    max_parallel: usize,
}

/// The refspec that pushes `branch` to the branch of the same name.
pub open spec fn push_refspec_spec(branch: Seq<char>) -> Seq<char> {
    "refs/heads/"@ + branch + ":refs/heads/"@ + branch
}

/// How many pushes succeeded.
pub open spec fn pushes_succeeded(results: Seq<PushResult>) -> nat
    decreases results.len(),
{
    if results.len() == 0 {
        0
    } else {
        pushes_succeeded(results.drop_last()) + if results.last().success {
            1nat
        } else {
            0nat
        }
    }
}

/// How many fetches succeeded.
pub open spec fn fetches_succeeded(results: Seq<FetchResult>) -> nat
    decreases results.len(),
{
    if results.len() == 0 {
        0
    } else {
        fetches_succeeded(results.drop_last()) + if results.last().success {
            1nat
        } else {
            0nat
        }
    }
}

/// The status a comparison gives: the counts when the comparison could be made, else
/// nothing ahead, nothing behind and not in sync.
pub open spec fn status_matches(
    s: SyncStatus,
    remote: Seq<char>,
    comparison: Option<(usize, usize)>,
) -> bool {
    &&& s.remote@ == remote
    &&& match comparison {
        Some((ahead, behind)) => s.ahead == ahead && s.behind == behind && s.in_sync == (ahead
            == 0 && behind == 0),
        None => s.ahead == 0 && s.behind == 0 && !s.in_sync,
    }
}

/// The refspec that pushes `branch` to the branch of the same name:
/// `refs/heads/<branch>:refs/heads/<branch>`.
pub fn push_refspec(branch: &str) -> (r: String)
    ensures
        r@ == push_refspec_spec(branch@),
{
    let mut r = concat2("refs/heads/", branch);
    r.append(":refs/heads/");
    r.append(branch);
    r
}

impl PushResult {
    /// The result of a push that took `duration_ms`: `Push successful`, or
    /// `Push failed: <reason>`.
    pub fn from_outcome(remote: String, outcome: Result<(), String>, duration_ms: u64) -> (r: Self)
        ensures
            r.remote == remote,
            r.duration_ms == duration_ms,
            r.success == outcome is Ok,
            match outcome {
                Ok(_) => r.message@ == "Push successful"@,
                Err(e) => r.message@ == "Push failed: "@ + e@,
            },
    {
        match outcome {
            Ok(_) => PushResult {
                remote,
                success: true,
                message: owned("Push successful"),
                duration_ms,
            },
            Err(e) => PushResult {
                remote,
                success: false,
                message: concat2("Push failed: ", e.as_str()),
                duration_ms,
            },
        }
    }

    /// The result when the repository could not be opened for the push.
    pub fn open_failed(remote: String, reason: &str, duration_ms: u64) -> (r: Self)
        ensures
            r.remote == remote,
            r.duration_ms == duration_ms,
            !r.success,
            r.message@ == "Failed to open repo: "@ + reason@,
    {
        PushResult {
            remote,
            success: false,
            message: concat2("Failed to open repo: ", reason),
            duration_ms,
        }
    }
}

impl FetchResult {
    /// The result of a fetch: `Fetch successful`, or `Fetch failed: <reason>`; no commit
    /// is counted.
    pub fn from_outcome(remote: String, outcome: Result<(), String>) -> (r: Self)
        ensures
            r.remote == remote,
            r.commits_fetched == 0,
            r.success == outcome is Ok,
            match outcome {
                Ok(_) => r.message@ == "Fetch successful"@,
                Err(e) => r.message@ == "Fetch failed: "@ + e@,
            },
    {
        match outcome {
            Ok(_) => FetchResult {
                remote,
                success: true,
                message: owned("Fetch successful"),
                commits_fetched: 0,
            },
            Err(e) => FetchResult {
                remote,
                success: false,
                message: concat2("Fetch failed: ", e.as_str()),
                commits_fetched: 0,
            },
        }
    }

    /// The result when the repository could not be opened for the fetch.
    pub fn open_failed(remote: String, reason: &str) -> (r: Self)
        ensures
            r.remote == remote,
            r.commits_fetched == 0,
            !r.success,
            r.message@ == "Failed to open repo: "@ + reason@,
    {
        FetchResult {
            remote,
            success: false,
            message: concat2("Failed to open repo: ", reason),
            commits_fetched: 0,
        }
    }
}

impl SyncStatus {
    /// The status against `remote` from a comparison of the branch with it, which gives
    /// (ahead, behind) or nothing when it failed.
    pub fn from_comparison(remote: String, comparison: Option<(usize, usize)>) -> (r: Self)
        ensures
            status_matches(r, remote@, comparison),
    {
        match comparison {
            Some((ahead, behind)) => SyncStatus {
                remote,
                ahead,
                behind,
                in_sync: ahead == 0 && behind == 0,
            },
            None => SyncStatus { remote, ahead: 0, behind: 0, in_sync: false },
        }
    }
}

/// Counts the successful pushes.
pub fn count_pushed(results: &Vec<PushResult>) -> (r: usize)
    ensures
        r == pushes_succeeded(results@),
{
    let mut n: usize = 0;
    let mut i: usize = 0;
    while i < results.len()
        invariant
            i <= results.len(),
            n == pushes_succeeded(results@.take(i as int)),
            n <= i,
        decreases results.len() - i,
    {
        assert(results@.take(i + 1).drop_last() =~= results@.take(i as int));
        if results[i].success {
            n = n + 1;
        }
        i = i + 1;
    }
    assert(results@.take(results.len() as int) =~= results@);
    n
}

/// Counts the successful fetches.
pub fn count_fetched(results: &Vec<FetchResult>) -> (r: usize)
    ensures
        r == fetches_succeeded(results@),
{
    let mut n: usize = 0;
    let mut i: usize = 0;
    while i < results.len()
        invariant
            i <= results.len(),
            n == fetches_succeeded(results@.take(i as int)),
            n <= i,
        decreases results.len() - i,
    {
        assert(results@.take(i + 1).drop_last() =~= results@.take(i as int));
        if results[i].success {
            n = n + 1;
        }
        i = i + 1;
    }
    assert(results@.take(results.len() as int) =~= results@);
    n
}

impl SyncManager {
    /// The repository's working directory.
    pub closed spec fn workdir_path(&self) -> Seq<char> {
        self.workdir@
    }

    /// How many remotes are worked on at a time.
    pub closed spec fn parallel(&self) -> usize {
        self.max_parallel
    }

    /// A manager for the repository at `workdir`, four remotes at a time.
    pub fn new(workdir: String) -> (r: Self)
        ensures
            r.workdir_path() == workdir@,
            r.parallel() == 4,
    {
        SyncManager { workdir, max_parallel: 4 }
    }

    /// The same manager, `max` remotes at a time (at least one).
    pub fn with_max_parallel(self, max: usize) -> (r: Self)
        ensures
            r.workdir_path() == self.workdir_path(),
            r.parallel() == if max < 1 {
                1
            } else {
                max
            },
    {
        let m = if max < 1 {
            1
        } else {
            max
        };
        SyncManager { workdir: self.workdir, max_parallel: m }
    }

    /// How many remotes are worked on at a time.
    pub fn max_parallel(&self) -> (r: usize)
        ensures
            r == self.parallel(),
    {
        self.max_parallel
    }

    /// The repository's working directory.
    pub fn workdir(&self) -> (r: &str)
        ensures
            r@ == self.workdir_path(),
    {
        self.workdir.as_str()
    }

    /// The status against each remote, in order, from the comparison of the branch with
    /// that remote (`comparisons[i]` belongs to `remotes[i]`).
    pub fn get_sync_status(
        remotes: &Vec<String>,
        comparisons: &Vec<Option<(usize, usize)>>,
    ) -> (r: Vec<SyncStatus>)
        requires
            comparisons.len() == remotes.len(),
        ensures
            r.len() == remotes.len(),
            forall|i: int|
                0 <= i < r.len() ==> status_matches(#[trigger] r[i], remotes[i]@, comparisons[i]),
    {
        let mut r: Vec<SyncStatus> = Vec::new();
        let mut i: usize = 0;
        while i < remotes.len()
            invariant
                i <= remotes.len(),
                comparisons.len() == remotes.len(),
                r.len() == i,
                forall|j: int|
                    0 <= j < i ==> status_matches(#[trigger] r[j], remotes[j]@, comparisons[j]),
            decreases remotes.len() - i,
        {
            let s = SyncStatus::from_comparison(remotes[i].clone(), comparisons[i]);
            r.push(s);
            i = i + 1;
        }
        r
    }
}

} // verus!
