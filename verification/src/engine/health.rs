//! Health reports: what is wrong with a repository before a sync, and how to fix it.
use vstd::prelude::*;

use crate::text::{concat2, decimal, decimal_spec, owned, strings_view};

verus! {

/// Health of one configured remote.
#[derive(Debug, Clone)]
pub struct RemoteHealth {
    /// Name of the remote.
    pub name: String,
    /// URL of the remote.
    pub url: String,
    /// Whether the remote answered.
    pub reachable: bool,
    /// What is wrong with it, if anything.
    pub issue: Option<String>,
}

/// The outcome of a health check.
#[derive(Debug, Clone)]
pub struct HealthReport {
    /// Whether the repository could be opened.
    pub repo_valid: bool,
    /// Whether the working directory has no uncommitted changes.
    pub working_dir_clean: bool,
    /// The checked-out branch, unless HEAD is detached.
    pub current_branch: Option<String>,
    /// Health of each remote.
    pub remotes: Vec<RemoteHealth>,
    /// Problems found.
    pub issues: Vec<String>,
    /// How to fix each problem, in the same order.
    pub recommendations: Vec<String>,
}

/// How many of `remotes` did not answer.
pub open spec fn unreachable_count(remotes: Seq<RemoteHealth>) -> nat
    decreases remotes.len(),
{
    if remotes.len() == 0 {
        0
    } else {
        unreachable_count(remotes.drop_last()) + if remotes.last().reachable {
            0nat
        } else {
            1nat
        }
    }
}

/// The problems a check reports, in order: uncommitted changes, no current branch,
/// unreachable remotes, no remotes at all.
pub open spec fn expected_issues(
    clean: bool,
    has_branch: bool,
    unreachable: nat,
    no_remotes: bool,
) -> Seq<Seq<char>> {
    (if clean {
        Seq::empty()
    } else {
        seq!["Working directory has uncommitted changes"@]
    }) + (if has_branch {
        Seq::empty()
    } else {
        seq!["Cannot determine current branch (detached HEAD?)"@]
    }) + (if unreachable == 0 {
        Seq::empty()
    } else {
        seq![decimal_spec(unreachable) + " remote(s) unreachable"@]
    }) + (if !no_remotes {
        Seq::empty()
    } else {
        seq!["No remotes configured"@]
    })
}

/// The advice for each problem of `expected_issues`, in the same order.
pub open spec fn expected_recommendations(
    clean: bool,
    has_branch: bool,
    unreachable: nat,
    no_remotes: bool,
) -> Seq<Seq<char>> {
    (if clean {
        Seq::empty()
    } else {
        seq!["Commit or stash your changes before syncing"@]
    }) + (if has_branch {
        Seq::empty()
    } else {
        seq!["Checkout a branch before syncing"@]
    }) + (if unreachable == 0 {
        Seq::empty()
    } else {
        seq!["Check your network connection and remote URLs"@]
    }) + (if !no_remotes {
        Seq::empty()
    } else {
        seq!["Add remotes with 'multigit remote add'"@]
    })
}

/// Counts the remotes that did not answer.
pub fn count_unreachable(remotes: &Vec<RemoteHealth>) -> (r: usize)
    ensures
        r == unreachable_count(remotes@),
{
    let mut n: usize = 0;
    let mut i: usize = 0;
    while i < remotes.len()
        invariant
            i <= remotes.len(),
            n == unreachable_count(remotes@.take(i as int)),
            n <= i,
        decreases remotes.len() - i,
    {
        assert(remotes@.take(i + 1).drop_last() =~= remotes@.take(i as int));
        if !remotes[i].reachable {
            n = n + 1;
        }
        i = i + 1;
    }
    assert(remotes@.take(remotes.len() as int) =~= remotes@);
    n
}

impl HealthReport {
    /// The report for a repository whose working directory is `working_dir_clean`, whose
    /// checked-out branch is `current_branch` and whose remotes are `remotes`: each
    /// problem found comes with its advice.
    pub fn from_checks(
        working_dir_clean: bool,
        current_branch: Option<String>,
        remotes: Vec<RemoteHealth>,
    ) -> (r: Self)
        ensures
            r.repo_valid,
            r.working_dir_clean == working_dir_clean,
            r.current_branch == current_branch,
            r.remotes@ == remotes@,
            strings_view(r.issues@) == expected_issues(
                working_dir_clean,
                current_branch is Some,
                unreachable_count(remotes@),
                remotes@.len() == 0,
            ),
            strings_view(r.recommendations@) == expected_recommendations(
                working_dir_clean,
                current_branch is Some,
                unreachable_count(remotes@),
                remotes@.len() == 0,
            ),
    {
        let mut issues: Vec<String> = Vec::new();
        let mut recommendations: Vec<String> = Vec::new();
        if !working_dir_clean {
            issues.push(owned("Working directory has uncommitted changes"));
            recommendations.push(owned("Commit or stash your changes before syncing"));
        }
        let ghost i1 = strings_view(issues@);
        let ghost r1 = strings_view(recommendations@);
        if current_branch.is_none() {
            issues.push(owned("Cannot determine current branch (detached HEAD?)"));
            recommendations.push(owned("Checkout a branch before syncing"));
        }
        let ghost i2 = strings_view(issues@);
        let ghost r2 = strings_view(recommendations@);
        let unreachable = count_unreachable(&remotes);
        if unreachable > 0 {
            let count = decimal(unreachable as u64);
            issues.push(concat2(count.as_str(), " remote(s) unreachable"));
            recommendations.push(owned("Check your network connection and remote URLs"));
        }
        let ghost i3 = strings_view(issues@);
        let ghost r3 = strings_view(recommendations@);
        if remotes.len() == 0 {
            issues.push(owned("No remotes configured"));
            recommendations.push(owned("Add remotes with 'multigit remote add'"));
        }
        proof {
            let c = working_dir_clean;
            let b = current_branch is Some;
            let u = unreachable_count(remotes@);
            let e = remotes@.len() == 0;
            assert(i1 =~= (if c {
                Seq::empty()
            } else {
                seq!["Working directory has uncommitted changes"@]
            }));
            assert(r1 =~= (if c {
                Seq::empty()
            } else {
                seq!["Commit or stash your changes before syncing"@]
            }));
            assert(i2 =~= i1 + (if b {
                Seq::empty()
            } else {
                seq!["Cannot determine current branch (detached HEAD?)"@]
            }));
            assert(r2 =~= r1 + (if b {
                Seq::empty()
            } else {
                seq!["Checkout a branch before syncing"@]
            }));
            assert(i3 =~= i2 + (if u == 0 {
                Seq::empty()
            } else {
                seq![decimal_spec(u) + " remote(s) unreachable"@]
            }));
            assert(r3 =~= r2 + (if u == 0 {
                Seq::empty()
            } else {
                seq!["Check your network connection and remote URLs"@]
            }));
            assert(strings_view(issues@) =~= i3 + (if !e {
                Seq::empty()
            } else {
                seq!["No remotes configured"@]
            }));
            assert(strings_view(recommendations@) =~= r3 + (if !e {
                Seq::empty()
            } else {
                seq!["Add remotes with 'multigit remote add'"@]
            }));
        }
        HealthReport {
            repo_valid: true,
            working_dir_clean,
            current_branch,
            remotes,
            issues,
            recommendations,
        }
    }

    /// Whether the check found no problem.
    pub fn is_healthy(&self) -> (r: bool)
        ensures
            r == (self.issues@.len() == 0),
    {
        self.issues.len() == 0
    }
}

/// A report is healthy exactly when the working directory is clean, a branch is checked
/// out, every remote answered and at least one remote is configured; and every problem
/// comes with one piece of advice.
pub proof fn law_healthy_iff_all_checks_pass(
    clean: bool,
    has_branch: bool,
    unreachable: nat,
    no_remotes: bool,
)
    ensures
        (expected_issues(clean, has_branch, unreachable, no_remotes).len() == 0) <==> (clean
            && has_branch && unreachable == 0 && !no_remotes),
        expected_issues(clean, has_branch, unreachable, no_remotes).len()
            == expected_recommendations(clean, has_branch, unreachable, no_remotes).len(),
{
}

} // verus!
