//! The working tree as the staging, switching and alias commands see it: what state a
//! changed file is in, how files and branches are offered for selection, and what Git's
//! listings hold.
use vstd::prelude::*;

use crate::text::{
    concat2, concat3, find_char, char_index, lines, lines_spec, owned,
    str_equal, strings_view, trim, trim_spec, trim_start_matches, trim_start_matches_spec,
};

verus! {

/// The state of one path as Git reports it.
#[derive(Debug, Clone, Copy, PartialEq, Eq, Structural)]
pub struct StatusFlags {
    /// Ignored by `.gitignore`.
    pub ignored: bool,
    /// New in the working tree.
    pub wt_new: bool,
    /// Modified in the working tree.
    pub wt_modified: bool,
    /// Deleted in the working tree.
    pub wt_deleted: bool,
    /// Renamed in the working tree.
    pub wt_renamed: bool,
    /// New in the index.
    pub index_new: bool,
    /// Modified in the index.
    pub index_modified: bool,
    /// Deleted in the index.
    pub index_deleted: bool,
    /// Renamed in the index.
    pub index_renamed: bool,
}

/// The state a commit lists a path in: staged or not; ignored paths are left out.
pub open spec fn commit_status_spec(f: StatusFlags) -> Option<Seq<char>> {
    if f.ignored {
        None
    } else if f.wt_new || f.index_new {
        Some("new"@)
    } else if f.wt_modified || f.index_modified {
        Some("modified"@)
    } else if f.wt_deleted || f.index_deleted {
        Some("deleted"@)
    } else if f.wt_renamed || f.index_renamed {
        Some("renamed"@)
    } else {
        Some("changed"@)
    }
}

/// The state a commit lists a path in.
pub fn commit_file_status(f: StatusFlags) -> (r: Option<&'static str>)
    ensures
        match r {
            Some(s) => commit_status_spec(f) == Some(s@),
            None => commit_status_spec(f) is None,
        },
{
    if f.ignored {
        None
    } else if f.wt_new || f.index_new {
        Some("new")
    } else if f.wt_modified || f.index_modified {
        Some("modified")
    } else if f.wt_deleted || f.index_deleted {
        Some("deleted")
    } else if f.wt_renamed || f.index_renamed {
        Some("renamed")
    } else {
        Some("changed")
    }
}

/// The state the staging command lists a path in: only changes in the working tree;
/// ignored paths and paths already staged as new or modified are left out.
pub open spec fn unstaged_status_spec(f: StatusFlags) -> Option<Seq<char>> {
    if f.ignored {
        None
    } else if f.wt_new {
        Some("new"@)
    } else if f.wt_modified {
        Some("modified"@)
    } else if f.wt_deleted {
        Some("deleted"@)
    } else if f.wt_renamed {
        Some("renamed"@)
    } else if f.index_new || f.index_modified {
        None
    } else {
        Some("changed"@)
    }
}

/// The state the staging command lists a path in.
pub fn unstaged_file_status(f: StatusFlags) -> (r: Option<&'static str>)
    ensures
        match r {
            Some(s) => unstaged_status_spec(f) == Some(s@),
            None => unstaged_status_spec(f) is None,
        },
{
    if f.ignored {
        None
    } else if f.wt_new {
        Some("new")
    } else if f.wt_modified {
        Some("modified")
    } else if f.wt_deleted {
        Some("deleted")
    } else if f.wt_renamed {
        Some("renamed")
    } else if f.index_new || f.index_modified {
        None
    } else {
        Some("changed")
    }
}

/// The paths among `files` (path, state) whose state is `status`, in order.
pub open spec fn paths_with_status(files: Seq<(Seq<char>, Seq<char>)>, status: Seq<char>) -> Seq<
    Seq<char>,
>
    decreases files.len(),
{
    if files.len() == 0 {
        Seq::empty()
    } else if files.last().1 == status {
        paths_with_status(files.drop_last(), status).push(files.last().0)
    } else {
        paths_with_status(files.drop_last(), status)
    }
}

/// A (path, state) list as plain text.
pub open spec fn file_list_view(files: Seq<(String, String)>) -> Seq<(Seq<char>, Seq<char>)> {
    files.map_values(|f: (String, String)| (f.0@, f.1@))
}

/// The paths whose state is `status`.
pub fn files_with_status(files: &Vec<(String, String)>, status: &str) -> (r: Vec<String>)
    ensures
        strings_view(r@) == paths_with_status(file_list_view(files@), status@),
{
    let ghost fv = file_list_view(files@);
    let mut out: Vec<String> = Vec::new();
    let mut i: usize = 0;
    while i < files.len()
        invariant
            i <= files@.len(),
            fv == file_list_view(files@),
            strings_view(out@) == paths_with_status(fv.take(i as int), status@),
        decreases files@.len() - i,
    {
        assert(fv.take(i + 1).drop_last() =~= fv.take(i as int));
        assert(fv.take(i + 1).last() == (files@[i as int].0@, files@[i as int].1@));
        let ghost before = strings_view(out@);
        if str_equal(files[i].1.as_str(), status) {
            out.push(files[i].0.clone());
            assert(strings_view(out@) =~= before.push(files@[i as int].0@));
        }
        i = i + 1;
    }
    assert(fv.take(files@.len() as int) =~= fv);
    out
}

/// The mark shown for a file state.
pub open spec fn status_mark(status: Seq<char>) -> Seq<char> {
    if status == "new"@ {
        "✨"@
    } else if status == "modified"@ {
        "📝"@
    } else if status == "deleted"@ {
        "🗑️"@
    } else if status == "renamed"@ {
        "📋"@
    } else {
        "📄"@
    }
}

/// How a changed file is offered for staging: `<mark> [<state>] <path>`.
pub fn stage_option(path: &str, status: &str) -> (r: String)
    ensures
        r@ == status_mark(status@) + " ["@ + status@ + "] "@ + path@,
{
    let mark = if str_equal(status, "new") {
        "✨"
    } else if str_equal(status, "modified") {
        "📝"
    } else if str_equal(status, "deleted") {
        "🗑️"
    } else if str_equal(status, "renamed") {
        "📋"
    } else {
        "📄"
    };
    let mut r = concat3(mark, " [", status);
    r.append("] ");
    r.append(path);
    r
}

/// The state named by a `git diff --name-status` letter.
pub fn staged_status_name(letter: &str) -> (r: &'static str)
    ensures
        r@ == if letter@ == "A"@ {
            "new"@
        } else if letter@ == "M"@ {
            "modified"@
        } else if letter@ == "D"@ {
            "deleted"@
        } else if letter@ == "R"@ {
            "renamed"@
        } else {
            "changed"@
        },
{
    if str_equal(letter, "A") {
        "new"
    } else if str_equal(letter, "M") {
        "modified"
    } else if str_equal(letter, "D") {
        "deleted"
    } else if str_equal(letter, "R") {
        "renamed"
    } else {
        "changed"
    }
}

/// How a branch is offered when switching: the current one marked `→ <b> (current)`,
/// the others indented.
pub fn branch_option(branch: &str, current: &str) -> (r: String)
    ensures
        r@ == if branch@ == current@ {
            "→ "@ + branch@ + " (current)"@
        } else {
            "  "@ + branch@
        },
{
    if str_equal(branch, current) {
        concat3("→ ", branch, " (current)")
    } else {
        concat2("  ", branch)
    }
}

/// The branch listing's names: each line trimmed, empty ones left out.
pub open spec fn branch_names_spec(ls: Seq<Seq<char>>) -> Seq<Seq<char>>
    decreases ls.len(),
{
    if ls.len() == 0 {
        Seq::empty()
    } else if trim_spec(ls.last()).len() == 0 {
        branch_names_spec(ls.drop_last())
    } else {
        branch_names_spec(ls.drop_last()).push(trim_spec(ls.last()))
    }
}

/// The branch names in the output of `git branch --format=%(refname:short)`.
pub fn parse_branch_list(output: &str) -> (r: Vec<String>)
    ensures
        strings_view(r@) == branch_names_spec(lines_spec(output@)),
{
    let all = lines(output);
    let ghost lv = strings_view(all@);
    let mut out: Vec<String> = Vec::new();
    let mut i: usize = 0;
    while i < all.len()
        invariant
            i <= all@.len(),
            lv == strings_view(all@),
            strings_view(out@) == branch_names_spec(lv.take(i as int)),
        decreases all@.len() - i,
    {
        assert(lv.take(i + 1).drop_last() =~= lv.take(i as int));
        assert(lv.take(i + 1).last() == all@[i as int]@);
        let t = trim(all[i].as_str());
        let ghost before = strings_view(out@);
        if t.unicode_len() > 0 {
            out.push(owned(t));
            assert(strings_view(out@) =~= before.push(t@));
        }
        i = i + 1;
    }
    assert(lv.take(all@.len() as int) =~= lv);
    out
}

/// Checks a new branch's name: not empty after trimming, and without spaces.
pub fn validate_branch_name(input: &str) -> (r: Result<(), &'static str>)
    ensures
        trim_spec(input@).len() == 0 ==> r == Err::<(), &'static str>(
            "Branch name cannot be empty",
        ),
        trim_spec(input@).len() > 0 && input@.contains(' ') ==> r == Err::<(), &'static str>(
            "Branch name cannot contain spaces",
        ),
        trim_spec(input@).len() > 0 && !input@.contains(' ') ==> r is Ok,
{
    if trim(input).unicode_len() == 0 {
        Err("Branch name cannot be empty")
    } else {
        match find_char(input, ' ') {
            Some(i) => {
                assert(input@[i as int] == ' ');
                Err("Branch name cannot contain spaces")
            },
            None => Ok(()),
        }
    }
}

/// An alias from a `git config --get-regexp ^alias\.` line: the name (without
/// `alias.`) and the command, split at the first space.
pub open spec fn alias_entry_spec(line: Seq<char>) -> Option<(Seq<char>, Seq<char>)> {
    match char_index(line, ' ') {
        Some(i) => Some((trim_start_matches_spec(line.take(i), "alias."@), line.skip(i + 1))),
        None => None,
    }
}

/// The alias that a configuration line defines.
pub fn alias_entry(line: &str) -> (r: Option<(String, String)>)
    ensures
        match alias_entry_spec(line@) {
            Some((n, c)) => (r matches Some((a, b)) && a@ == n && b@ == c),
            None => r is None,
        },
{
    match find_char(line, ' ') {
        Some(i) => {
            let n = line.unicode_len();
            let name = line.substring_char(0, i);
            let cmd = line.substring_char(i + 1, n);
            assert(name@ =~= line@.take(i as int));
            assert(cmd@ =~= line@.skip(i + 1));
            Some((owned(trim_start_matches(name, "alias.")), owned(cmd)))
        },
        None => None,
    }
}

/// The last `n` lines of a log (all of them when there are fewer).
pub fn log_tail(all: Vec<String>, n: usize) -> (r: Vec<String>)
    ensures
        r@ == if all@.len() > n {
            all@.skip(all@.len() - n)
        } else {
            all@
        },
{
    let len = all.len();
    let start: usize = if len > n {
        len - n
    } else {
        0
    };
    let mut out: Vec<String> = Vec::new();
    let mut i: usize = start;
    while i < len
        invariant
            start <= i <= len,
            len == all@.len(),
            out@ == all@.subrange(start as int, i as int),
        decreases len - i,
    {
        out.push(all[i].clone());
        assert(out@ =~= all@.subrange(start as int, i + 1));
        i = i + 1;
    }
    assert(all@.subrange(start as int, len as int) =~= if all@.len() > n {
        all@.skip(all@.len() - n)
    } else {
        all@
    });
    out
}

/// The daemon's interval in seconds for `minutes` minutes.
pub fn interval_for_minutes(minutes: u64) -> (r: u64)
    requires
        minutes * 60 <= u64::MAX,
    ensures
        r == minutes * 60,
{
    minutes * 60
}

} // verus!
