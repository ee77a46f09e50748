//! Detecting diverged branches and deciding how to resolve them.
use vstd::prelude::*;

use crate::error::MultiGitError;
use crate::text::{concat3, lowercase, owned, str_equal, to_lowercase};

verus! {

/// How conflicts are resolved.
#[derive(Debug, Clone, Copy, PartialEq, Eq, Structural)]
pub enum ResolutionStrategy {
    /// Fast-forward only (safest).
    FastForwardOnly,
    /// Prefer the remote as source of truth.
    PreferRemote,
    /// Always resolve by hand.
    Manual,
    /// Force push (dangerous).
    Force,
}

/// A detected divergence between local and remote.
pub struct Conflict {
    /// Branch concerned.
    pub branch: String,
    /// Local commits the remote lacks.
    pub local_commits: usize,
    /// Remote commits the local branch lacks.
    pub remote_commits: usize,
    /// Both sides have commits the other lacks.
    pub diverged: bool,
}

impl Conflict {
    /// A conflict `ahead` local and `behind` remote commits apart; diverged when both
    /// are non-zero.
    pub fn new(branch: String, ahead: usize, behind: usize) -> (r: Self)
        ensures
            r.branch == branch,
            r.local_commits == ahead,
            r.remote_commits == behind,
            r.diverged == (ahead > 0 && behind > 0),
    {
        Conflict { branch, local_commits: ahead, remote_commits: behind, diverged: ahead > 0 && behind > 0 }
    }
}

/// What to do about a conflict.
#[derive(Debug, Clone, Copy, PartialEq, Eq, Structural)]
pub enum Resolution {
    /// Already in sync.
    NoAction,
    /// Push local commits.
    Push,
    /// Pull remote commits.
    Pull,
    /// Overwrite the remote.
    ForcePush,
    /// A person has to resolve it.
    RequiresManual,
}

/// The resolution a strategy chooses for a conflict.
pub open spec fn resolution_for(s: ResolutionStrategy, c: Conflict) -> Resolution {
    match s {
        ResolutionStrategy::FastForwardOnly => if c.diverged {
            Resolution::RequiresManual
        } else if c.local_commits > 0 {
            Resolution::Push
        } else if c.remote_commits > 0 {
            Resolution::Pull
        } else {
            Resolution::NoAction
        },
        ResolutionStrategy::PreferRemote => if c.remote_commits > 0 {
            Resolution::Pull
        } else {
            Resolution::Push
        },
        ResolutionStrategy::Manual => Resolution::RequiresManual,
        ResolutionStrategy::Force => Resolution::ForcePush,
    }
}

/// Whether a strategy resolves a conflict without a person.
pub open spec fn auto_resolvable(s: ResolutionStrategy, c: Conflict) -> bool {
    match s {
        ResolutionStrategy::FastForwardOnly => !c.diverged,
        ResolutionStrategy::PreferRemote => true,
        ResolutionStrategy::Force => true,
        ResolutionStrategy::Manual => false,
    }
}

/// Resolves conflicts by a fixed strategy.
pub struct ConflictResolver {
    strategy: ResolutionStrategy,
}

impl ConflictResolver {
    /// The strategy in use.
    pub closed spec fn strategy_spec(&self) -> ResolutionStrategy {
        self.strategy
    }

    /// A resolver with `strategy`.
    pub fn new(strategy: ResolutionStrategy) -> (r: Self)
        ensures
            r.strategy_spec() == strategy,
    {
        ConflictResolver { strategy }
    }

    /// The strategy in use.
    pub fn strategy(&self) -> (r: ResolutionStrategy)
        ensures
            r == self.strategy_spec(),
    {
        self.strategy
    }

    /// A conflict when local and remote have both moved on (branch left empty for the
    /// caller to fill in); none otherwise.
    pub fn detect_conflict(&self, ahead: usize, behind: usize) -> (r: Option<Conflict>)
        ensures
            r is Some <==> (ahead > 0 && behind > 0),
            r matches Some(c) ==> c.branch@.len() == 0 && c.local_commits == ahead
                && c.remote_commits == behind && c.diverged,
    {
        if ahead > 0 && behind > 0 {
            Some(Conflict { branch: String::new(), local_commits: ahead, remote_commits: behind, diverged: true })
        } else {
            None
        }
    }

    /// The resolution the strategy chooses; it never fails.
    pub fn resolve(&self, conflict: &Conflict) -> (r: Result<Resolution, MultiGitError>)
        ensures
            r == Ok::<Resolution, MultiGitError>(resolution_for(self.strategy_spec(), *conflict)),
    {
        match self.strategy {
            ResolutionStrategy::FastForwardOnly => {
                if conflict.diverged {
                    Ok(Resolution::RequiresManual)
                } else if conflict.local_commits > 0 {
                    Ok(Resolution::Push)
                } else if conflict.remote_commits > 0 {
                    Ok(Resolution::Pull)
                } else {
                    Ok(Resolution::NoAction)
                }
            },
            ResolutionStrategy::PreferRemote => {
                if conflict.remote_commits > 0 {
                    Ok(Resolution::Pull)
                } else {
                    Ok(Resolution::Push)
                }
            },
            ResolutionStrategy::Manual => Ok(Resolution::RequiresManual),
            ResolutionStrategy::Force => Ok(Resolution::ForcePush),
        }
    }

    /// Whether the strategy resolves the conflict without a person.
    pub fn can_auto_resolve(&self, conflict: &Conflict) -> (r: bool)
        ensures
            r == auto_resolvable(self.strategy_spec(), *conflict),
    {
        match self.strategy {
            ResolutionStrategy::FastForwardOnly => !conflict.diverged,
            ResolutionStrategy::PreferRemote => true,
            ResolutionStrategy::Force => true,
            ResolutionStrategy::Manual => false,
        }
    }
}

impl Default for ConflictResolver {
    fn default() -> (r: Self)
        ensures
            r.strategy_spec() == ResolutionStrategy::FastForwardOnly,
    {
        Self::new(ResolutionStrategy::FastForwardOnly)
    }
}

/// A conflict can be resolved automatically exactly when its resolution needs no person.
pub proof fn law_auto_resolve_iff_not_manual(s: ResolutionStrategy, c: Conflict)
    ensures
        auto_resolvable(s, c) <==> resolution_for(s, c) != Resolution::RequiresManual,
{
}

/// Preferring the remote pulls whenever the remote has commits the local branch lacks,
/// and otherwise pushes the local branch; manual resolution always asks for a person,
/// and forcing always force-pushes, whatever the counts.
pub proof fn law_strategy_decisions(c: Conflict)
    ensures
        c.remote_commits > 0 ==> resolution_for(ResolutionStrategy::PreferRemote, c)
            == Resolution::Pull,
        c.remote_commits == 0 ==> resolution_for(ResolutionStrategy::PreferRemote, c)
            == Resolution::Push,
        resolution_for(ResolutionStrategy::Manual, c) == Resolution::RequiresManual,
        resolution_for(ResolutionStrategy::Force, c) == Resolution::ForcePush,
        c.diverged ==> resolution_for(ResolutionStrategy::FastForwardOnly, c)
            == Resolution::RequiresManual,
        !c.diverged && c.local_commits > 0 ==> resolution_for(
            ResolutionStrategy::FastForwardOnly,
            c,
        ) == Resolution::Push,
        !c.diverged && c.local_commits == 0 && c.remote_commits > 0 ==> resolution_for(
            ResolutionStrategy::FastForwardOnly,
            c,
        ) == Resolution::Pull,
        !c.diverged && c.local_commits == 0 && c.remote_commits == 0 ==> resolution_for(
            ResolutionStrategy::FastForwardOnly,
            c,
        ) == Resolution::NoAction,
{
}

/// A conflict built from ahead/behind counts is diverged exactly when the resolver
/// detects one for those counts; fast-forward then asks for a person, and otherwise it
/// pushes when ahead, pulls when behind, and does nothing in sync.
pub proof fn law_fast_forward_decisions(branch: String, ahead: usize, behind: usize)
    ensures
        ({
            let c = Conflict {
                branch,
                local_commits: ahead,
                remote_commits: behind,
                diverged: ahead > 0 && behind > 0,
            };
            &&& (ahead > 0 && behind > 0) ==> resolution_for(
                ResolutionStrategy::FastForwardOnly,
                c,
            ) == Resolution::RequiresManual
            &&& (ahead > 0 && behind == 0) ==> resolution_for(
                ResolutionStrategy::FastForwardOnly,
                c,
            ) == Resolution::Push
            &&& (ahead == 0 && behind > 0) ==> resolution_for(
                ResolutionStrategy::FastForwardOnly,
                c,
            ) == Resolution::Pull
            &&& (ahead == 0 && behind == 0) ==> resolution_for(
                ResolutionStrategy::FastForwardOnly,
                c,
            ) == Resolution::NoAction
        }),
{
}

/// The strategy a lowercase strategy name stands for.
pub open spec fn strategy_from_lowercase(s: Seq<char>) -> Option<ResolutionStrategy> {
    if s == "ours"@ || s == "local"@ || s == "fast-forward"@ {
        Some(ResolutionStrategy::FastForwardOnly)
    } else if s == "theirs"@ || s == "remote"@ || s == "primary"@ {
        Some(ResolutionStrategy::PreferRemote)
    } else if s == "manual"@ {
        Some(ResolutionStrategy::Manual)
    } else if s == "force"@ {
        Some(ResolutionStrategy::Force)
    } else {
        None
    }
}

/// The strategy a lowercase strategy name stands for.
pub fn strategy_from_name(s: &str) -> (r: Option<ResolutionStrategy>)
    ensures
        r == strategy_from_lowercase(s@),
{
    if str_equal(s, "ours") || str_equal(s, "local") || str_equal(s, "fast-forward") {
        Some(ResolutionStrategy::FastForwardOnly)
    } else if str_equal(s, "theirs") || str_equal(s, "remote") || str_equal(s, "primary") {
        Some(ResolutionStrategy::PreferRemote)
    } else if str_equal(s, "manual") {
        Some(ResolutionStrategy::Manual)
    } else if str_equal(s, "force") {
        Some(ResolutionStrategy::Force)
    } else {
        None
    }
}

/// The message for a strategy name that is not known.
pub open spec fn invalid_strategy_message(s: Seq<char>) -> Seq<char> {
    "Invalid strategy '"@ + s
        + "'. Valid strategies: ours, theirs, primary, manual, force"@
}

/// Reads a strategy name in any case: `ours`/`local`/`fast-forward`, `theirs`/`remote`/
/// `primary`, `manual`, `force`.
pub fn parse_strategy(strategy: &str) -> (r: Result<ResolutionStrategy, MultiGitError>)
    ensures
        match strategy_from_lowercase(lowercase(strategy@)) {
            Some(s) => r == Ok::<ResolutionStrategy, MultiGitError>(s),
            None => r is Err && r->Err_0 is Other && r->Err_0->Other_0@
                == invalid_strategy_message(strategy@),
        },
{
    let lower = to_lowercase(strategy);
    match strategy_from_name(lower.as_str()) {
        Some(s) => Ok(s),
        None => Err(
            MultiGitError::Other(
                concat3(
                    "Invalid strategy '",
                    strategy,
                    "'. Valid strategies: ours, theirs, primary, manual, force",
                ),
            ),
        ),
    }
}

/// How a local branch stands to its remote counterpart.
#[derive(Debug, Clone, Copy, PartialEq, Eq, Structural)]
pub enum BranchRelation {
    /// Same commits.
    InSync,
    /// Only local has new commits.
    Ahead,
    /// Only the remote has new commits.
    Behind,
    /// Both have new commits.
    Diverged,
}

/// The relation for `ahead` local and `behind` remote commits.
pub open spec fn relation_of(ahead: usize, behind: usize) -> BranchRelation {
    if ahead == 0 && behind == 0 {
        BranchRelation::InSync
    } else if ahead > 0 && behind > 0 {
        BranchRelation::Diverged
    } else if ahead > 0 {
        BranchRelation::Ahead
    } else {
        BranchRelation::Behind
    }
}

impl BranchRelation {
    /// The relation for `ahead` local and `behind` remote commits.
    pub fn classify(ahead: usize, behind: usize) -> (r: Self)
        ensures
            r == relation_of(ahead, behind),
    {
        if ahead == 0 && behind == 0 {
            BranchRelation::InSync
        } else if ahead > 0 && behind > 0 {
            BranchRelation::Diverged
        } else if ahead > 0 {
            BranchRelation::Ahead
        } else {
            BranchRelation::Behind
        }
    }

    /// The status text shown for the relation.
    pub fn label(&self) -> (r: String)
        ensures
            r@ == (match *self {
                BranchRelation::InSync => "✓ In sync"@,
                BranchRelation::Diverged => "⚠ CONFLICT: Diverged"@,
                BranchRelation::Ahead => "↑ Ahead"@,
                BranchRelation::Behind => "↓ Behind"@,
            }),
    {
        match self {
            BranchRelation::InSync => owned("✓ In sync"),
            BranchRelation::Diverged => owned("⚠ CONFLICT: Diverged"),
            BranchRelation::Ahead => owned("↑ Ahead"),
            BranchRelation::Behind => owned("↓ Behind"),
        }
    }
}

/// What pulling from a remote does for `ahead` local and `behind` remote commits.
#[derive(Debug, Clone, Copy, PartialEq, Eq, Structural)]
pub enum PullPlan {
    /// Both moved on; nothing is pulled.
    Diverged,
    /// Nothing to pull.
    UpToDate,
    /// Move the local branch to the remote commit.
    FastForward,
    /// Local commits stand in the way; merge or rebase by hand.
    CannotFastForward,
}

/// The pull plan for `ahead` local and `behind` remote commits.
pub open spec fn pull_plan_of(ahead: usize, behind: usize) -> PullPlan {
    if ahead > 0 && behind > 0 {
        PullPlan::Diverged
    } else if behind == 0 {
        PullPlan::UpToDate
    } else if ahead == 0 {
        PullPlan::FastForward
    } else {
        PullPlan::CannotFastForward
    }
}

impl PullPlan {
    /// The pull plan for `ahead` local and `behind` remote commits.
    pub fn decide(ahead: usize, behind: usize) -> (r: Self)
        ensures
            r == pull_plan_of(ahead, behind),
    {
        if ahead > 0 && behind > 0 {
            PullPlan::Diverged
        } else if behind == 0 {
            PullPlan::UpToDate
        } else if ahead == 0 {
            PullPlan::FastForward
        } else {
            PullPlan::CannotFastForward
        }
    }
}

/// A pull fast-forwards exactly when the branch is behind and not ahead.
pub proof fn law_pull_fast_forwards_only_when_behind(ahead: usize, behind: usize)
    ensures
        pull_plan_of(ahead, behind) == PullPlan::FastForward <==> (ahead == 0 && behind > 0),
        pull_plan_of(ahead, behind) != PullPlan::CannotFastForward,
{
}

} // verus!
