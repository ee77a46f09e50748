//! The decisions of the `conflict` commands: which remotes have diverged from the
//! local branch, and what to do about each divergence.
use vstd::prelude::*;

use crate::engine::conflict_resolver::{resolution_for, Conflict, ConflictResolver, Resolution};
use crate::error::MultiGitError;
use crate::text::owned;

verus! {

/// One enabled or disabled remote, and the comparison of the local branch with it:
/// (local commits ahead, remote commits ahead), or nothing when it could not be made.
pub struct RemoteCheck {
    /// Name of the remote.
    pub name: String,
    /// Whether the remote takes part in syncs.
    pub enabled: bool,
    /// The comparison with the local branch.
    pub comparison: Option<(usize, usize)>,
}

/// How the local branch stands against one remote.
pub struct RemoteState {
    /// Name of the remote.
    pub name: String,
    /// Local commits the remote lacks.
    pub ahead: usize,
    /// Remote commits the local branch lacks.
    pub behind: usize,
    /// Both sides have commits the other lacks.
    pub diverged: bool,
}

/// The remotes that were compared, and whether any has diverged.
pub struct ConflictScan {
    /// One state per enabled remote that could be compared, in order.
    pub states: Vec<RemoteState>,
    /// Whether some compared remote has diverged.
    pub conflicts_found: bool,
}

/// A remote state as plain values: name, ahead, behind, diverged.
pub open spec fn state_view(s: RemoteState) -> (Seq<char>, usize, usize, bool) {
    (s.name@, s.ahead, s.behind, s.diverged)
}

/// The states that the checks give: one per enabled remote with a comparison.
pub open spec fn scanned(checks: Seq<RemoteCheck>) -> Seq<(Seq<char>, usize, usize, bool)>
    decreases checks.len(),
{
    if checks.len() == 0 {
        Seq::empty()
    } else {
        let c = checks.last();
        let rest = scanned(checks.drop_last());
        if c.enabled && c.comparison is Some {
            let (a, b) = c.comparison->0;
            rest.push((c.name@, a, b, a > 0 && b > 0))
        } else {
            rest
        }
    }
}

/// A comparison in which both sides have commits the other lacks.
pub open spec fn diverged_comparison(c: Option<(usize, usize)>) -> bool {
    match c {
        Some((a, b)) => a > 0 && b > 0,
        None => false,
    }
}

/// Some enabled remote has diverged from the local branch.
pub open spec fn any_diverged(checks: Seq<RemoteCheck>) -> bool {
    exists|i: int|
        0 <= i < checks.len() && #[trigger] checks[i].enabled && diverged_comparison(
            checks[i].comparison,
        )
}

/// The divergences that are to be resolved, as (ahead, behind) per enabled diverged
/// remote, in order.
pub open spec fn diverged_counts(checks: Seq<RemoteCheck>) -> Seq<(usize, usize)>
    decreases checks.len(),
{
    if checks.len() == 0 {
        Seq::empty()
    } else {
        let c = checks.last();
        let rest = diverged_counts(checks.drop_last());
        if c.enabled && diverged_comparison(c.comparison) {
            rest.push(c.comparison->0)
        } else {
            rest
        }
    }
}

/// Compares the local branch with each enabled remote.
pub fn scan_remotes(checks: &Vec<RemoteCheck>) -> (r: ConflictScan)
    ensures
        r.states@.map_values(|s: RemoteState| state_view(s)) == scanned(checks@),
        r.conflicts_found == any_diverged(checks@),
{
    let mut states: Vec<RemoteState> = Vec::new();
    let mut found = false;
    let mut i: usize = 0;
    while i < checks.len()
        invariant
            i <= checks.len(),
            states@.map_values(|s: RemoteState| state_view(s)) == scanned(checks@.take(i as int)),
            found == any_diverged(checks@.take(i as int)),
        decreases checks.len() - i,
    {
        let ghost prev = checks@.take(i as int);
        assert(checks@.take(i + 1).drop_last() =~= prev);
        assert(checks@.take(i + 1).last() == checks@[i as int]);
        let c = &checks[i];
        let ghost before = states@;
        if c.enabled {
            match c.comparison {
                Some((a, b)) => {
                    states.push(
                        RemoteState {
                            name: c.name.clone(),
                            ahead: a,
                            behind: b,
                            diverged: a > 0 && b > 0,
                        },
                    );
                    assert(states@.map_values(|s: RemoteState| state_view(s)) =~= before.map_values(
                        |s: RemoteState| state_view(s),
                    ).push((c.name@, a, b, a > 0 && b > 0)));
                    if a > 0 && b > 0 {
                        found = true;
                    }
                },
                None => {},
            }
        }
        proof {
            let next = checks@.take(i + 1);
            if any_diverged(next) && !any_diverged(prev) {
                let j = choose|j: int|
                    0 <= j < next.len() && #[trigger] next[j].enabled && diverged_comparison(
                        next[j].comparison,
                    );
                assert(j == i);
            }
            if any_diverged(prev) {
                let j = choose|j: int|
                    0 <= j < prev.len() && #[trigger] prev[j].enabled && diverged_comparison(
                        prev[j].comparison,
                    );
                assert(next[j] == prev[j]);
            }
            if c.enabled && diverged_comparison(c.comparison) {
                assert(next[i as int] == checks@[i as int]);
            }
        }
        i = i + 1;
    }
    assert(checks@.take(checks.len() as int) =~= checks@);
    ConflictScan { states, conflicts_found: found }
}

/// The outcome of a scan: an error when some remote has diverged.
pub fn scan_verdict(scan: &ConflictScan) -> (r: Result<(), MultiGitError>)
    ensures
        r is Ok <==> !scan.conflicts_found,
        r matches Err(e) ==> e is Conflict && e->Conflict_0@ == "Conflicts detected across remotes"@,
{
    if scan.conflicts_found {
        Err(MultiGitError::Conflict(owned("Conflicts detected across remotes")))
    } else {
        Ok(())
    }
}

/// The conflicts on `branch` to resolve: one per enabled remote that has diverged.
pub fn conflicts_to_resolve(branch: &str, checks: &Vec<RemoteCheck>) -> (r: Vec<Conflict>)
    ensures
        r@.len() == diverged_counts(checks@).len(),
        forall|i: int|
            0 <= i < r@.len() ==> {
                &&& (#[trigger] r@[i]).branch@ == branch@
                &&& (r@[i].local_commits, r@[i].remote_commits) == diverged_counts(checks@)[i]
                &&& r@[i].diverged
            },
{
    let mut out: Vec<Conflict> = Vec::new();
    let mut i: usize = 0;
    while i < checks.len()
        invariant
            i <= checks.len(),
            out@.len() == diverged_counts(checks@.take(i as int)).len(),
            forall|j: int|
                0 <= j < out@.len() ==> {
                    &&& (#[trigger] out@[j]).branch@ == branch@
                    &&& (out@[j].local_commits, out@[j].remote_commits) == diverged_counts(
                        checks@.take(i as int),
                    )[j]
                    &&& out@[j].diverged
                },
        decreases checks.len() - i,
    {
        assert(checks@.take(i + 1).drop_last() =~= checks@.take(i as int));
        assert(checks@.take(i + 1).last() == checks@[i as int]);
        let c = &checks[i];
        if c.enabled {
            match c.comparison {
                Some((a, b)) => {
                    if a > 0 && b > 0 {
                        out.push(Conflict::new(owned(branch), a, b));
                    }
                },
                None => {},
            }
        }
        i = i + 1;
    }
    assert(checks@.take(checks.len() as int) =~= checks@);
    out
}

/// What the resolver decides for each conflict, in order.
pub fn resolve_all(resolver: &ConflictResolver, conflicts: &Vec<Conflict>) -> (r: Vec<Resolution>)
    ensures
        r@.len() == conflicts@.len(),
        forall|i: int|
            0 <= i < r@.len() ==> #[trigger] r@[i] == resolution_for(
                resolver.strategy_spec(),
                conflicts@[i],
            ),
{
    let mut out: Vec<Resolution> = Vec::new();
    let mut i: usize = 0;
    while i < conflicts.len()
        invariant
            i <= conflicts.len(),
            out@.len() == i,
            forall|j: int|
                0 <= j < i ==> #[trigger] out@[j] == resolution_for(
                    resolver.strategy_spec(),
                    conflicts@[j],
                ),
        decreases conflicts.len() - i,
    {
        match resolver.resolve(&conflicts[i]) {
            Ok(res) => out.push(res),
            Err(_) => {},
        }
        i = i + 1;
    }
    out
}

} // verus!
