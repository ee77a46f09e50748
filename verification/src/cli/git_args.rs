//! The Git command lines that the commands run, and what they make of Git's output.
use vstd::prelude::*;

use crate::error::MultiGitError;
use crate::text::{
    concat2, contains_spec, contains_str, decimal, decimal_spec, find_char, char_index, is_ws,
    lines, lines_spec, owned, split_spec, strings_view, trim, trim_spec,
};

verus! {

/// The arguments of `git log` listing `limit` commits (20 by default) as
/// `hash|author|age|subject`, on `branch` and by `author` when given.
pub open spec fn log_args_spec(limit: usize, branch: Option<Seq<char>>, author: Option<Seq<char>>) -> Seq<
    Seq<char>,
> {
    seq!["log"@, "-"@ + decimal_spec(limit as nat), "--pretty=format:%h|%an|%ar|%s"@] + match branch {
        Some(b) => seq![b],
        None => Seq::empty(),
    } + match author {
        Some(a) => seq!["--author="@ + a],
        None => Seq::empty(),
    }
}

/// The view of an optional `String`.
pub open spec fn opt_string_view(o: Option<String>) -> Option<Seq<char>> {
    match o {
        Some(s) => Some(s@),
        None => None,
    }
}

/// The arguments of the commit-history `git log`.
pub fn log_args(limit: Option<usize>, branch: Option<String>, author: Option<String>) -> (r: Vec<
    String,
>)
    ensures
        strings_view(r@) == log_args_spec(
            match limit {
                Some(l) => l,
                None => 20,
            },
            opt_string_view(branch),
            opt_string_view(author),
        ),
{
    let limit_val: usize = match limit {
        Some(l) => l,
        None => 20,
    };
    let count = decimal(limit_val as u64);
    let mut args: Vec<String> = Vec::new();
    args.push(owned("log"));
    args.push(concat2("-", count.as_str()));
    args.push(owned("--pretty=format:%h|%an|%ar|%s"));
    let ghost base = strings_view(args@);
    assert(base =~= seq!["log"@, "-"@ + decimal_spec(limit_val as nat), "--pretty=format:%h|%an|%ar|%s"@]);
    match branch {
        Some(b) => {
            args.push(b);
        },
        None => {},
    }
    let ghost mid = strings_view(args@);
    match author {
        Some(a) => {
            args.push(concat2("--author=", a.as_str()));
        },
        None => {},
    }
    assert(strings_view(args@) =~= log_args_spec(limit_val, opt_string_view(branch), opt_string_view(author)));
    args
}

/// The fields of a `hash|author|age|subject` log line, when it has at least four.
pub open spec fn log_fields(line: Seq<char>) -> Option<Seq<Seq<char>>> {
    let parts = split_spec(line, '|');
    if parts.len() >= 4 {
        Some(parts)
    } else {
        None
    }
}

/// How a log line is offered for selection: `📝 hash • author • age`, or the line as it
/// is when it has fewer than four fields.
pub fn log_entry_label(line: &str) -> (r: String)
    ensures
        r@ == match log_fields(line@) {
            Some(p) => "📝 "@ + p[0] + " • "@ + p[1] + " • "@ + p[2],
            None => line@,
        },
{
    let parts = crate::text::split_char(line, '|');
    if parts.len() >= 4 {
        let mut r = concat2("📝 ", parts[0].as_str());
        r.append(" • ");
        r.append(parts[1].as_str());
        r.append(" • ");
        r.append(parts[2].as_str());
        r
    } else {
        owned(line)
    }
}

/// The commit hash of a log line with at least four fields.
pub fn log_entry_hash(line: &str) -> (r: Option<String>)
    ensures
        match log_fields(line@) {
            Some(p) => r is Some && r->0@ == p[0],
            None => r is None,
        },
{
    let parts = crate::text::split_char(line, '|');
    if parts.len() >= 4 {
        Some(parts[0].clone())
    } else {
        None
    }
}

/// The first whitespace-separated word of `line`, or nothing when it has none.
pub open spec fn first_word(line: Seq<char>) -> Seq<char> {
    let t = trim_spec(line);
    t.take(word_end(t))
}

/// Where the first word of `t` ends: at its first whitespace character, or at its end.
pub open spec fn word_end(t: Seq<char>) -> int
    decreases t.len(),
{
    if t.len() == 0 || is_ws(t[0]) {
        0
    } else {
        1 + word_end(t.drop_first())
    }
}

/// The commit hash at the start of a `git log --oneline` line.
pub fn commit_hash_of(line: &str) -> (r: String)
    ensures
        r@ == first_word(line@),
{
    let t = trim(line);
    let n = t.unicode_len();
    let mut i: usize = 0;
    assert(t@.skip(0) =~= t@);
    while i < n && !crate::text::is_whitespace(t.get_char(i))
        invariant
            n == t@.len(),
            i <= n,
            word_end(t@) == i + word_end(t@.skip(i as int)),
        decreases n - i,
    {
        assert(t@.skip(i as int).drop_first() =~= t@.skip(i + 1));
        i = i + 1;
    }
    assert(word_end(t@.skip(i as int)) == 0) by {
        if i < n {
            assert(t@.skip(i as int)[0] == t@[i as int]);
        }
    }
    let w = t.substring_char(0, i);
    assert(w@ =~= t@.take(i as int));
    owned(w)
}

/// The reset mode offered at each position: soft, mixed, hard; mixed for anything else.
pub fn reset_mode(choice: usize) -> (r: &'static str)
    ensures
        r@ == if choice == 0 {
            "soft"@
        } else if choice == 2 {
            "hard"@
        } else {
            "mixed"@
        },
{
    if choice == 0 {
        "soft"
    } else if choice == 2 {
        "hard"
    } else {
        "mixed"
    }
}

/// The arguments of `git reset --<mode> <target>`.
pub fn reset_args(mode: &str, target: &str) -> (r: Vec<String>)
    ensures
        strings_view(r@) == seq!["reset"@, "--"@ + mode@, target@],
{
    let mut r: Vec<String> = Vec::new();
    r.push(owned("reset"));
    r.push(concat2("--", mode));
    r.push(owned(target));
    assert(strings_view(r@) =~= seq!["reset"@, "--"@ + mode@, target@]);
    r
}

/// The arguments that undo the last commit, keeping its changes (soft) or not (hard).
pub fn undo_commit_args(keep_changes: bool) -> (r: Vec<String>)
    ensures
        strings_view(r@) == seq![
            "reset"@,
            if keep_changes {
                "--soft"@
            } else {
                "--hard"@
            },
            "HEAD~1"@,
        ],
{
    let mut r: Vec<String> = Vec::new();
    r.push(owned("reset"));
    if keep_changes {
        r.push(owned("--soft"));
    } else {
        r.push(owned("--hard"));
    }
    r.push(owned("HEAD~1"));
    assert(strings_view(r@) =~= seq![
        "reset"@,
        if keep_changes {
            "--soft"@
        } else {
            "--hard"@
        },
        "HEAD~1"@,
    ]);
    r
}

/// The files named in `git status --porcelain` output: in each line with a space, the
/// trimmed text after the first space.
pub open spec fn porcelain_files_spec(ls: Seq<Seq<char>>) -> Seq<Seq<char>>
    decreases ls.len(),
{
    if ls.len() == 0 {
        Seq::empty()
    } else {
        let rest = porcelain_files_spec(ls.drop_last());
        let l = ls.last();
        match char_index(l, ' ') {
            Some(i) => rest.push(trim_spec(l.skip(i + 1))),
            None => rest,
        }
    }
}

/// The files named in `git status --porcelain` output.
pub fn porcelain_files(output: &str) -> (r: Vec<String>)
    ensures
        strings_view(r@) == porcelain_files_spec(lines_spec(output@)),
{
    let all = lines(output);
    let ghost lv = strings_view(all@);
    let mut out: Vec<String> = Vec::new();
    let mut i: usize = 0;
    while i < all.len()
        invariant
            i <= all@.len(),
            lv == strings_view(all@),
            strings_view(out@) == porcelain_files_spec(lv.take(i as int)),
        decreases all@.len() - i,
    {
        assert(lv.take(i + 1).drop_last() =~= lv.take(i as int));
        assert(lv.take(i + 1).last() == all@[i as int]@);
        let line = all[i].as_str();
        let ghost before = strings_view(out@);
        match find_char(line, ' ') {
            Some(k) => {
                let n = line.unicode_len();
                let rest = line.substring_char(k + 1, n);
                assert(rest@ =~= line@.skip(k + 1));
                out.push(owned(trim(rest)));
                assert(strings_view(out@) =~= before.push(trim_spec(line@.skip(k + 1))));
            },
            None => {},
        }
        i = i + 1;
    }
    assert(lv.take(all@.len() as int) =~= lv);
    out
}

/// The identifier of a stash from its `git stash list` line: the text before the first
/// colon.
pub fn stash_id(line: &str) -> (r: String)
    ensures
        r@ == match char_index(line@, ':') {
            Some(i) => line@.take(i),
            None => line@,
        },
{
    match find_char(line, ':') {
        Some(i) => {
            let s = line.substring_char(0, i);
            assert(s@ =~= line@.take(i as int));
            owned(s)
        },
        None => owned(line),
    }
}

/// The arguments of `git stash push`, with `-m <message>` for a non-empty message.
pub fn stash_push_args(message: &str) -> (r: Vec<String>)
    ensures
        strings_view(r@) == if message@.len() == 0 {
            seq!["stash"@, "push"@]
        } else {
            seq!["stash"@, "push"@, "-m"@, message@]
        },
{
    let mut r: Vec<String> = Vec::new();
    r.push(owned("stash"));
    r.push(owned("push"));
    if message.unicode_len() > 0 {
        r.push(owned("-m"));
        r.push(owned(message));
    }
    assert(strings_view(r@) =~= if message@.len() == 0 {
        seq!["stash"@, "push"@]
    } else {
        seq!["stash"@, "push"@, "-m"@, message@]
    });
    r
}

/// The arguments of `git commit --amend`, with `--no-edit` unless the message is edited.
pub fn amend_args(edit: bool) -> (r: Vec<String>)
    ensures
        strings_view(r@) == if edit {
            seq!["commit"@, "--amend"@]
        } else {
            seq!["commit"@, "--amend"@, "--no-edit"@]
        },
{
    let mut r: Vec<String> = Vec::new();
    r.push(owned("commit"));
    r.push(owned("--amend"));
    if !edit {
        r.push(owned("--no-edit"));
    }
    assert(strings_view(r@) =~= if edit {
        seq!["commit"@, "--amend"@]
    } else {
        seq!["commit"@, "--amend"@, "--no-edit"@]
    });
    r
}

/// The arguments that push all branches (or all tags) to `remote`, forced when asked.
pub fn mirror_push_args(remote: &str, tags: bool, force: bool) -> (r: Vec<String>)
    ensures
        strings_view(r@) == seq![
            "push"@,
            remote@,
            if tags {
                "--tags"@
            } else {
                "--all"@
            },
        ] + if force {
            seq!["--force"@]
        } else {
            Seq::empty()
        },
{
    let mut r: Vec<String> = Vec::new();
    r.push(owned("push"));
    r.push(owned(remote));
    if tags {
        r.push(owned("--tags"));
    } else {
        r.push(owned("--all"));
    }
    let ghost base = strings_view(r@);
    if force {
        r.push(owned("--force"));
    }
    assert(strings_view(r@) =~= base + if force {
        seq!["--force"@]
    } else {
        Seq::<Seq<char>>::empty()
    });
    r
}

/// The arguments of `git commit` for the `commit` command: the message after `-m`,
/// then `--amend` and `-a` when asked, then the remaining arguments.
pub fn commit_args(message: Option<String>, amend: bool, all: bool, rest: Vec<String>) -> (r: Vec<
    String,
>)
    ensures
        strings_view(r@) == seq!["commit"@] + match message {
            Some(m) => seq!["-m"@, m@],
            None => Seq::empty(),
        } + if amend {
            seq!["--amend"@]
        } else {
            Seq::empty()
        } + if all {
            seq!["-a"@]
        } else {
            Seq::empty()
        } + strings_view(rest@),
{
    let mut r: Vec<String> = Vec::new();
    r.push(owned("commit"));
    let ghost m_part = match message {
        Some(ref m) => seq!["-m"@, m@],
        None => Seq::<Seq<char>>::empty(),
    };
    match message {
        Some(m) => {
            r.push(owned("-m"));
            r.push(m);
        },
        None => {},
    }
    assert(strings_view(r@) =~= seq!["commit"@] + m_part);
    let ghost a = strings_view(r@);
    if amend {
        r.push(owned("--amend"));
    }
    assert(strings_view(r@) =~= a + if amend {
        seq!["--amend"@]
    } else {
        Seq::<Seq<char>>::empty()
    });
    let ghost b = strings_view(r@);
    if all {
        r.push(owned("-a"));
    }
    assert(strings_view(r@) =~= b + if all {
        seq!["-a"@]
    } else {
        Seq::<Seq<char>>::empty()
    });
    let ghost c = strings_view(r@);
    let mut rest = rest;
    let ghost before = rest@;
    r.append(&mut rest);
    assert(strings_view(r@) =~= c + strings_view(before));
    r
}

/// The arguments of a Git command run through as given: the command, then its
/// arguments.
pub fn passthrough_args(command: &str, rest: Vec<String>) -> (r: Vec<String>)
    ensures
        strings_view(r@) == seq![command@] + strings_view(rest@),
{
    let mut r: Vec<String> = Vec::new();
    r.push(owned(command));
    let mut rest = rest;
    let ghost before = rest@;
    r.append(&mut rest);
    assert(strings_view(r@) =~= seq![command@] + strings_view(before));
    r
}

/// What a merge came to.
#[derive(Debug, Clone, Copy, PartialEq, Eq, Structural)]
pub enum MergeOutcome {
    /// It went through.
    Merged,
    /// It stopped on conflicts to resolve.
    Conflicts,
}

/// What a `git merge` that exited with `success` and printed `stderr` came to: a
/// failure that mentions `CONFLICT` leaves conflicts to resolve; any other failure is
/// `Merge failed: <stderr>`.
pub fn merge_outcome(success: bool, stderr: &str) -> (r: Result<MergeOutcome, MultiGitError>)
    ensures
        success ==> r == Ok::<MergeOutcome, MultiGitError>(MergeOutcome::Merged),
        !success && contains_spec(stderr@, "CONFLICT"@) ==> r == Ok::<
            MergeOutcome,
            MultiGitError,
        >(MergeOutcome::Conflicts),
        !success && !contains_spec(stderr@, "CONFLICT"@) ==> r is Err && r->Err_0 is Other
            && r->Err_0->Other_0@ == "Merge failed: "@ + stderr@,
{
    if success {
        Ok(MergeOutcome::Merged)
    } else if contains_str(stderr, "CONFLICT") {
        Ok(MergeOutcome::Conflicts)
    } else {
        Err(MultiGitError::Other(concat2("Merge failed: ", stderr)))
    }
}

} // verus!
