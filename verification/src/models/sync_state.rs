//! Synchronization state of a repository across its remotes.
use vstd::prelude::*;

use crate::named_map::{lemma_map_of_lookup, lemma_map_of_value, names_distinct, NamedMap};
use crate::text::{owned, strings_view};

verus! {

/// Sync status of one remote.
#[derive(Debug, Clone, Copy, PartialEq, Eq, Structural)]
pub enum RemoteSyncStatus {
    /// Not yet checked.
    Unknown,
    /// Fully synchronized.
    Synced,
    /// Ahead or behind.
    Dirty,
    /// Sync in progress.
    Syncing,
    /// An error occurred.
    Error,
}

impl RemoteSyncStatus {
    /// The lowercase name of the status.
    pub fn to_string(&self) -> (r: String)
        ensures
            r@ == (match *self {
                RemoteSyncStatus::Unknown => "unknown"@,
                RemoteSyncStatus::Synced => "synced"@,
                RemoteSyncStatus::Dirty => "dirty"@,
                RemoteSyncStatus::Syncing => "syncing"@,
                RemoteSyncStatus::Error => "error"@,
            }),
    {
        match self {
            RemoteSyncStatus::Unknown => owned("unknown"),
            RemoteSyncStatus::Synced => owned("synced"),
            RemoteSyncStatus::Dirty => owned("dirty"),
            RemoteSyncStatus::Syncing => owned("syncing"),
            RemoteSyncStatus::Error => owned("error"),
        }
    }
}

/// Overall sync status of a repository.
#[derive(Debug, Clone, Copy, PartialEq, Eq, Structural)]
pub enum SyncStatus {
    /// Not yet known.
    Unknown,
    /// All remotes synced.
    Synced,
    /// Some remotes out of sync.
    Dirty,
    /// Conflicts detected.
    Conflict,
    /// An error occurred.
    Error,
}

impl SyncStatus {
    /// The lowercase name of the status.
    pub fn to_string(&self) -> (r: String)
        ensures
            r@ == (match *self {
                SyncStatus::Unknown => "unknown"@,
                SyncStatus::Synced => "synced"@,
                SyncStatus::Dirty => "dirty"@,
                SyncStatus::Conflict => "conflict"@,
                SyncStatus::Error => "error"@,
            }),
    {
        match self {
            SyncStatus::Unknown => owned("unknown"),
            SyncStatus::Synced => owned("synced"),
            SyncStatus::Dirty => owned("dirty"),
            SyncStatus::Conflict => owned("conflict"),
            SyncStatus::Error => owned("error"),
        }
    }
}

/// State of one remote.
pub struct RemoteState {
    /// Remote name.
    pub name: String,
    /// Commits the remote is ahead of local.
    pub ahead: usize,
    /// Commits the remote is behind local.
    pub behind: usize,
    /// Last fetch, in milliseconds since the Unix epoch.
    pub last_fetch: Option<i64>,
    /// Last push, in milliseconds since the Unix epoch.
    pub last_push: Option<i64>,
    /// Sync status.
    pub status: RemoteSyncStatus,
    /// Error message when the status is `Error`.
    pub error_message: Option<String>,
}

/// A remote is in sync: neither ahead nor behind, and marked synced.
pub open spec fn remote_synced(s: RemoteState) -> bool {
    s.ahead == 0 && s.behind == 0 && s.status == RemoteSyncStatus::Synced
}

impl RemoteState {
    /// A remote not yet checked.
    pub fn new(name: &str) -> (r: Self)
        ensures
            r.name@ == name@,
            r.ahead == 0,
            r.behind == 0,
            r.last_fetch is None,
            r.last_push is None,
            r.status == RemoteSyncStatus::Unknown,
            r.error_message is None,
    {
        RemoteState {
            name: owned(name),
            ahead: 0,
            behind: 0,
            last_fetch: None,
            last_push: None,
            status: RemoteSyncStatus::Unknown,
            error_message: None,
        }
    }

    /// Whether the remote is in sync.
    pub fn is_synced(&self) -> (r: bool)
        ensures
            r == remote_synced(*self),
    {
        self.ahead == 0 && self.behind == 0 && self.status == RemoteSyncStatus::Synced
    }

    /// Marks the remote synced, recording the current time as its last push.
    pub fn mark_synced(&mut self)
        ensures
            remote_synced(*final(self)),
            final(self).ahead == 0,
            final(self).behind == 0,
            final(self).status == RemoteSyncStatus::Synced,
            final(self).last_push is Some,
            final(self).name == old(self).name,
            final(self).last_fetch == old(self).last_fetch,
            final(self).error_message == old(self).error_message,
    {
        self.ahead = 0;
        self.behind = 0;
        self.status = RemoteSyncStatus::Synced;
        self.last_push = Some(crate::clock::now_millis());
    }

    /// Marks the remote failed with `message`.
    pub fn mark_error(&mut self, message: &str)
        ensures
            final(self).status == RemoteSyncStatus::Error,
            final(self).error_message is Some,
            final(self).error_message->0@ == message@,
            !remote_synced(*final(self)),
            final(self).name == old(self).name,
            final(self).ahead == old(self).ahead,
            final(self).behind == old(self).behind,
            final(self).last_fetch == old(self).last_fetch,
            final(self).last_push == old(self).last_push,
    {
        self.status = RemoteSyncStatus::Error;
        self.error_message = Some(owned(message));
    }
}

/// Kind of conflict.
#[derive(Debug, Clone, Copy, PartialEq, Eq, Structural)]
pub enum ConflictType {
    /// Branches hold different commits.
    DivergentBranches,
    /// HEAD commits differ.
    DifferentHeads,
    /// A force push was detected.
    ForcePush,
    /// A branch exists on some remotes only.
    BranchMismatch,
    /// A merge conflict.
    MergeConflict,
}

impl ConflictType {
    /// The kebab-case name of the kind.
    pub fn to_string(&self) -> (r: String)
        ensures
            r@ == (match *self {
                ConflictType::DivergentBranches => "divergent-branches"@,
                ConflictType::DifferentHeads => "different-heads"@,
                ConflictType::ForcePush => "force-push"@,
                ConflictType::BranchMismatch => "branch-mismatch"@,
                ConflictType::MergeConflict => "merge-conflict"@,
            }),
    {
        match self {
            ConflictType::DivergentBranches => owned("divergent-branches"),
            ConflictType::DifferentHeads => owned("different-heads"),
            ConflictType::ForcePush => owned("force-push"),
            ConflictType::BranchMismatch => owned("branch-mismatch"),
            ConflictType::MergeConflict => owned("merge-conflict"),
        }
    }
}

/// A detected conflict.
pub struct Conflict {
    /// Kind of conflict.
    pub conflict_type: ConflictType,
    /// Remotes involved.
    pub remotes: Vec<String>,
    /// Branch where it was found.
    pub branch: String,
    /// Description.
    pub description: String,
    /// When it was found, in milliseconds since the Unix epoch.
    pub detected_at: i64,
    /// Suggested resolution.
    pub suggested_resolution: Option<String>,
}

impl Conflict {
    /// A conflict found now, without a suggestion.
    pub fn new(conflict_type: ConflictType, remotes: Vec<String>, branch: &str, description: &str) -> (r:
        Self)
        ensures
            r.conflict_type == conflict_type,
            r.remotes == remotes,
            r.branch@ == branch@,
            r.description@ == description@,
            r.suggested_resolution is None,
    {
        Conflict {
            conflict_type,
            remotes,
            branch: owned(branch),
            description: owned(description),
            detected_at: crate::clock::now_millis(),
            suggested_resolution: None,
        }
    }

    /// The same conflict with a suggested resolution.
    pub fn with_suggestion(self, suggestion: &str) -> (r: Self)
        ensures
            r.suggested_resolution is Some && r.suggested_resolution->0@ == suggestion@,
            r == (Conflict { suggested_resolution: r.suggested_resolution, ..self }),
    {
        Conflict { suggested_resolution: Some(owned(suggestion)), ..self }
    }
}

/// Every remote in the map is in sync.
pub open spec fn all_synced(m: Map<Seq<char>, RemoteState>) -> bool {
    forall|k: Seq<char>| m.contains_key(k) ==> remote_synced(#[trigger] m[k])
}

/// Some remote in the map failed.
pub open spec fn any_error(m: Map<Seq<char>, RemoteState>) -> bool {
    exists|k: Seq<char>| m.contains_key(k) && (#[trigger] m[k]).status == RemoteSyncStatus::Error
}

/// The overall status: conflicts first, then all in sync, then any failure, else dirty.
pub open spec fn overall_status(m: Map<Seq<char>, RemoteState>, has_conflicts: bool) -> SyncStatus {
    if has_conflicts {
        SyncStatus::Conflict
    } else if all_synced(m) {
        SyncStatus::Synced
    } else if any_error(m) {
        SyncStatus::Error
    } else {
        SyncStatus::Dirty
    }
}

/// Synchronization state of a repository.
pub struct SyncState {
    /// Repository path.
    pub repo_path: String,
    /// Current branch.
    pub current_branch: String,
    /// State of each remote, by name.
    pub remotes: NamedMap<RemoteState>,
    /// Detected conflicts.
    pub conflicts: Vec<Conflict>,
    /// Last successful sync, in milliseconds since the Unix epoch.
    pub last_sync: Option<i64>,
    /// Overall status.
    pub status: SyncStatus,
}

impl SyncState {
    /// Well formed: each remote name at most once.
    pub open spec fn wf(&self) -> bool {
        self.remotes.wf()
    }

    /// A state with no remotes and no conflicts, status unknown.
    pub fn new(repo_path: &str, current_branch: &str) -> (r: Self)
        ensures
            r.wf(),
            r.repo_path@ == repo_path@,
            r.current_branch@ == current_branch@,
            r.remotes@ == Map::<Seq<char>, RemoteState>::empty(),
            r.conflicts@.len() == 0,
            r.last_sync is None,
            r.status == SyncStatus::Unknown,
    {
        SyncState {
            repo_path: owned(repo_path),
            current_branch: owned(current_branch),
            remotes: NamedMap::new(),
            conflicts: Vec::new(),
            last_sync: None,
            status: SyncStatus::Unknown,
        }
    }

    /// Records the state of remote `name`, replacing an earlier one.
    pub fn add_remote(&mut self, name: &str, state: RemoteState)
        requires
            old(self).wf(),
        ensures
            final(self).wf(),
            final(self).remotes@ == old(self).remotes@.insert(name@, state),
            final(self).conflicts == old(self).conflicts,
            final(self).status == old(self).status,
            final(self).repo_path == old(self).repo_path,
            final(self).current_branch == old(self).current_branch,
            final(self).last_sync == old(self).last_sync,
    {
        self.remotes.insert(owned(name), state);
    }

    /// Whether any conflict was detected.
    pub fn has_conflicts(&self) -> (r: bool)
        ensures
            r == (self.conflicts@.len() > 0),
    {
        self.conflicts.len() > 0
    }

    /// Whether every remote is in sync.
    fn all_remotes_synced(&self) -> (r: bool)
        requires
            self.wf(),
        ensures
            r == all_synced(self.remotes@),
    {
        let n = self.remotes.len();
        let ghost e = self.remotes.entries();
        let mut i: usize = 0;
        while i < n
            invariant
                self.wf(),
                e == self.remotes.entries(),
                n == e.len(),
                i <= n,
                forall|j: int| 0 <= j < i ==> remote_synced(#[trigger] e[j].1),
            decreases n - i,
        {
            let (_, st) = self.remotes.entry(i);
            if !st.is_synced() {
                proof {
                    lemma_map_of_lookup(e, i as int);
                }
                assert(!remote_synced(self.remotes@[e[i as int].0@]));
                return false;
            }
            i = i + 1;
        }
        assert forall|k: Seq<char>| self.remotes@.contains_key(k) implies remote_synced(
            #[trigger] self.remotes@[k],
        ) by {
            let j = lemma_map_of_value(e, k);
        }
        true
    }

    /// Whether any remote failed.
    fn any_remote_error(&self) -> (r: bool)
        requires
            self.wf(),
        ensures
            r == any_error(self.remotes@),
    {
        let n = self.remotes.len();
        let ghost e = self.remotes.entries();
        let mut i: usize = 0;
        while i < n
            invariant
                self.wf(),
                e == self.remotes.entries(),
                n == e.len(),
                i <= n,
                forall|j: int| 0 <= j < i ==> (#[trigger] e[j].1).status != RemoteSyncStatus::Error,
            decreases n - i,
        {
            let (_, st) = self.remotes.entry(i);
            if st.status == RemoteSyncStatus::Error {
                proof {
                    lemma_map_of_lookup(e, i as int);
                }
                assert(self.remotes@[e[i as int].0@].status == RemoteSyncStatus::Error);
                return true;
            }
            i = i + 1;
        }
        assert forall|k: Seq<char>| self.remotes@.contains_key(k) implies (
        #[trigger] self.remotes@[k]).status != RemoteSyncStatus::Error by {
            let j = lemma_map_of_value(e, k);
        }
        false
    }

    /// Whether every remote is in sync and there is no conflict.
    pub fn is_fully_synced(&self) -> (r: bool)
        requires
            self.wf(),
        ensures
            r == (all_synced(self.remotes@) && self.conflicts@.len() == 0),
    {
        self.all_remotes_synced() && !self.has_conflicts()
    }

    /// The names of the remotes that are not in sync, each once.
    pub fn out_of_sync_remotes(&self) -> (r: Vec<String>)
        requires
            self.wf(),
        ensures
            strings_view(r@).no_duplicates(),
            forall|k: Seq<char>|
                strings_view(r@).contains(k) <==> (self.remotes@.contains_key(k)
                    && !remote_synced(self.remotes@[k])),
    {
        let n = self.remotes.len();
        let ghost e = self.remotes.entries();
        let mut out: Vec<String> = Vec::new();
        let mut i: usize = 0;
        while i < n
            invariant
                self.wf(),
                e == self.remotes.entries(),
                names_distinct(e),
                n == e.len(),
                i <= n,
                strings_view(out@).no_duplicates(),
                forall|k: Seq<char>|
                    strings_view(out@).contains(k) <==> exists|j: int|
                        0 <= j < i && (#[trigger] e[j]).0@ == k && !remote_synced(e[j].1),
            decreases n - i,
        {
            let (name, st) = self.remotes.entry(i);
            let ghost before = strings_view(out@);
            let ghost ki = e[i as int].0@;
            if !st.is_synced() {
                out.push(name.clone());
                assert(strings_view(out@) =~= before.push(ki));
                assert(!before.contains(ki)) by {
                    if before.contains(ki) {
                        let j = choose|j: int|
                            0 <= j < i && (#[trigger] e[j]).0@ == ki && !remote_synced(e[j].1);
                        assert(e[j].0@ == e[i as int].0@);
                    }
                }
                assert forall|k: Seq<char>| #[trigger]
                    strings_view(out@).contains(k) implies exists|j: int|
                        0 <= j < i + 1 && (#[trigger] e[j]).0@ == k && !remote_synced(e[j].1) by {
                    if k != ki {
                        let m = choose|m: int|
                            0 <= m < strings_view(out@).len() && #[trigger] strings_view(out@)[m]
                                == k;
                        assert(m < before.len());
                        assert(before[m] == k);
                        assert(before.contains(k));
                    } else {
                        assert(e[i as int].0@ == k && !remote_synced(e[i as int].1));
                    }
                }
                assert forall|k: Seq<char>|
                    (exists|j: int|
                        0 <= j < i + 1 && (#[trigger] e[j]).0@ == k && !remote_synced(e[j].1))
                    implies #[trigger] strings_view(out@).contains(k) by {
                    let j = choose|j: int|
                        0 <= j < i + 1 && (#[trigger] e[j]).0@ == k && !remote_synced(e[j].1);
                    if j < i {
                        assert(before.contains(k));
                        let m = choose|m: int| 0 <= m < before.len() && #[trigger] before[m] == k;
                        assert(strings_view(out@)[m] == k);
                    } else {
                        assert(strings_view(out@)[before.len() as int] == k);
                    }
                }
            } else {
                assert forall|k: Seq<char>|
                    strings_view(out@).contains(k) <==> exists|j: int|
                        0 <= j < i + 1 && (#[trigger] e[j]).0@ == k && !remote_synced(e[j].1) by {
                    if exists|j: int|
                        0 <= j < i + 1 && (#[trigger] e[j]).0@ == k && !remote_synced(e[j].1) {
                        let j = choose|j: int|
                            0 <= j < i + 1 && (#[trigger] e[j]).0@ == k && !remote_synced(e[j].1);
                        if j == i {
                            assert(false);
                        }
                    }
                }
            }
            i = i + 1;
        }
        assert forall|k: Seq<char>|
            strings_view(out@).contains(k) <==> (self.remotes@.contains_key(k) && !remote_synced(
                self.remotes@[k],
            )) by {
            if self.remotes@.contains_key(k) {
                let j = lemma_map_of_value(e, k);
                if !remote_synced(self.remotes@[k]) {
                    assert(e[j].0@ == k && !remote_synced(e[j].1));
                }
            }
            if strings_view(out@).contains(k) {
                let j = choose|j: int|
                    0 <= j < n && (#[trigger] e[j]).0@ == k && !remote_synced(e[j].1);
                lemma_map_of_lookup(e, j);
            }
        }
        out
    }

    /// Sets the overall status from the conflicts and the remotes' states.
    pub fn update_status(&mut self)
        requires
            old(self).wf(),
        ensures
            final(self).wf(),
            final(self).status == overall_status(
                old(self).remotes@,
                old(self).conflicts@.len() > 0,
            ),
            final(self).remotes == old(self).remotes,
            final(self).conflicts == old(self).conflicts,
            final(self).repo_path == old(self).repo_path,
            final(self).current_branch == old(self).current_branch,
            final(self).last_sync == old(self).last_sync,
    {
        if self.has_conflicts() {
            self.status = SyncStatus::Conflict;
        } else if self.is_fully_synced() {
            self.status = SyncStatus::Synced;
        } else if self.any_remote_error() {
            self.status = SyncStatus::Error;
        } else {
            self.status = SyncStatus::Dirty;
        }
    }
}

/// Result of pushing to one remote.
pub struct PushResult {
    /// Remote pushed to.
    pub remote: String,
    /// Whether the push succeeded.
    pub success: bool,
    /// Status message.
    pub message: String,
    /// Commits pushed.
    pub commits_pushed: usize,
    /// How long the push took.
    pub duration: Option<std::time::Duration>,
}

impl PushResult {
    /// A successful push of `commits` commits, with message `Success`.
    pub fn success(remote: &str, commits: usize) -> (r: Self)
        ensures
            r.remote@ == remote@,
            r.success,
            r.message@ == "Success"@,
            r.commits_pushed == commits,
            r.duration is None,
    {
        PushResult {
            remote: owned(remote),
            success: true,
            message: owned("Success"),
            commits_pushed: commits,
            duration: None,
        }
    }

    /// A failed push with `message`.
    pub fn failure(remote: &str, message: &str) -> (r: Self)
        ensures
            r.remote@ == remote@,
            !r.success,
            r.message@ == message@,
            r.commits_pushed == 0,
            r.duration is None,
    {
        PushResult {
            remote: owned(remote),
            success: false,
            message: owned(message),
            commits_pushed: 0,
            duration: None,
        }
    }

    /// The same result with its duration.
    pub fn with_duration(self, duration: std::time::Duration) -> (r: Self)
        ensures
            r == (PushResult { duration: Some(duration), ..self }),
    {
        PushResult { duration: Some(duration), ..self }
    }
}

} // verus!
