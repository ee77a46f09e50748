//! Changelogs from conventional commit subjects: each subject is sorted under its type,
//! and the types are written out in a fixed order.
use vstd::prelude::*;

use crate::clock::{date_text, local_date};
use crate::text::{
    char_index, concat2, concat3, find_char, owned, str_equal, strings_view, trim, trim_spec,
};

verus! {

/// The (type, message) of a commit subject `type(scope): message`; a subject without
/// a colon is of type `other` and keeps all its text.
pub open spec fn parse_commit_spec(c: Seq<char>) -> (Seq<char>, Seq<char>) {
    match char_index(c, ':') {
        Some(p) => {
            let prefix = c.take(p);
            let ty = match char_index(prefix, '(') {
                Some(q) => prefix.take(q),
                None => prefix,
            };
            (trim_spec(ty), trim_spec(c.skip(p + 1)))
        },
        None => ("other"@, c),
    }
}

/// The commit types that a changelog lists, in the order it lists them.
pub open spec fn category_order() -> Seq<Seq<char>> {
    seq![
        "feat"@,
        "fix"@,
        "docs"@,
        "style"@,
        "refactor"@,
        "perf"@,
        "test"@,
        "build"@,
        "ci"@,
        "chore"@,
    ]
}

/// The heading of the section for commit type `c`.
pub open spec fn category_title(c: Seq<char>) -> Seq<char> {
    if c == "feat"@ {
        "### ✨ Features"@
    } else if c == "fix"@ {
        "### 🐛 Bug Fixes"@
    } else if c == "docs"@ {
        "### 📚 Documentation"@
    } else if c == "style"@ {
        "### 💎 Styles"@
    } else if c == "refactor"@ {
        "### ♻️  Refactoring"@
    } else if c == "perf"@ {
        "### ⚡ Performance"@
    } else if c == "test"@ {
        "### ✅ Tests"@
    } else if c == "build"@ {
        "### 🔨 Build"@
    } else if c == "ci"@ {
        "### 👷 CI/CD"@
    } else if c == "chore"@ {
        "### 🔧 Chores"@
    } else {
        "### Other"@
    }
}

/// The messages of the commits of type `cat`, in commit order.
pub open spec fn messages_in(commits: Seq<Seq<char>>, cat: Seq<char>) -> Seq<Seq<char>>
    decreases commits.len(),
{
    if commits.len() == 0 {
        Seq::empty()
    } else {
        let rest = messages_in(commits.drop_last(), cat);
        let (t, m) = parse_commit_spec(commits.last());
        if t == cat {
            rest.push(m)
        } else {
            rest
        }
    }
}

/// One `- message` line per message.
pub open spec fn bullets(msgs: Seq<Seq<char>>) -> Seq<char>
    decreases msgs.len(),
{
    if msgs.len() == 0 {
        Seq::empty()
    } else {
        bullets(msgs.drop_last()) + "- "@ + msgs.last() + "\n"@
    }
}

/// The section for type `cat`: its heading and its messages, or nothing when no commit
/// has that type.
pub open spec fn section(commits: Seq<Seq<char>>, cat: Seq<char>) -> Seq<char> {
    let m = messages_in(commits, cat);
    if m.len() == 0 {
        Seq::empty()
    } else {
        category_title(cat) + "\n\n"@ + bullets(m) + "\n"@
    }
}

/// The sections for the types `cats`, in order.
pub open spec fn sections(commits: Seq<Seq<char>>, cats: Seq<Seq<char>>) -> Seq<char>
    decreases cats.len(),
{
    if cats.len() == 0 {
        Seq::empty()
    } else {
        sections(commits, cats.drop_last()) + section(commits, cats.last())
    }
}

/// The changelog entry for `commits`, dated `date`.
pub open spec fn changelog_spec(commits: Seq<Seq<char>>, date: Seq<char>) -> Seq<char> {
    "## [Unreleased] - "@ + date + "\n\n"@ + sections(commits, category_order())
}

/// `log` is `pre`, then a section with heading `heading` listing `msgs` as bullets,
/// then `post`.
pub open spec fn bullet_section_at(
    log: Seq<char>,
    pre: Seq<char>,
    heading: Seq<char>,
    msgs: Seq<Seq<char>>,
    post: Seq<char>,
) -> bool {
    log == pre + heading + "\n\n"@ + bullets(msgs) + "\n"@ + post
}

/// `log` holds a section with heading `heading` whose bullet list has the message `m`.
pub open spec fn listed_under(log: Seq<char>, heading: Seq<char>, m: Seq<char>) -> bool {
    exists|pre: Seq<char>, msgs: Seq<Seq<char>>, post: Seq<char>|
        #[trigger] bullet_section_at(log, pre, heading, msgs, post) && msgs.contains(m)
}

/// The sections for two runs of types are the sections for each, one after the other.
proof fn lemma_sections_concat(commits: Seq<Seq<char>>, x: Seq<Seq<char>>, y: Seq<Seq<char>>)
    ensures
        sections(commits, x + y) == sections(commits, x) + sections(commits, y),
    decreases y.len(),
{
    if y.len() == 0 {
        assert(x + y =~= x);
        assert(sections(commits, x) + sections(commits, y) =~= sections(commits, x));
    } else {
        lemma_sections_concat(commits, x, y.drop_last());
        assert((x + y).drop_last() =~= x + y.drop_last());
        assert((x + y).last() == y.last());
        assert(sections(commits, x) + sections(commits, y.drop_last()) + section(
            commits,
            y.last(),
        ) =~= sections(commits, x) + (sections(commits, y.drop_last()) + section(
            commits,
            y.last(),
        )));
    }
}

/// A commit's message is among the messages of its type.
proof fn lemma_message_collected(commits: Seq<Seq<char>>, i: int)
    requires
        0 <= i < commits.len(),
    ensures
        messages_in(commits, parse_commit_spec(commits[i]).0).contains(
            parse_commit_spec(commits[i]).1,
        ),
    decreases commits.len(),
{
    let (t, m) = parse_commit_spec(commits[i]);
    let rest = messages_in(commits.drop_last(), t);
    if i == commits.len() - 1 {
        assert(messages_in(commits, t) == rest.push(m));
        assert(rest.push(m)[rest.len() as int] == m);
    } else {
        lemma_message_collected(commits.drop_last(), i);
        assert(commits.drop_last()[i] == commits[i]);
        let j = choose|j: int| 0 <= j < rest.len() && rest[j] == m;
        let (t2, m2) = parse_commit_spec(commits.last());
        if t2 == t {
            assert(rest.push(m2)[j] == m);
        }
    }
}

/// A commit whose type is the `k`-th listed type is a bullet in that type's section.
proof fn lemma_listed_at(commits: Seq<Seq<char>>, date: Seq<char>, i: int, k: int)
    requires
        0 <= i < commits.len(),
        0 <= k < category_order().len(),
        category_order()[k] == parse_commit_spec(commits[i]).0,
    ensures
        listed_under(
            changelog_spec(commits, date),
            category_title(category_order()[k]),
            parse_commit_spec(commits[i]).1,
        ),
{
    let (t, m) = parse_commit_spec(commits[i]);
    let cats = category_order();
    lemma_message_collected(commits, i);
    let msgs = messages_in(commits, t);
    let x = cats.take(k);
    let y = cats.skip(k + 1);
    assert(cats =~= x + seq![t] + y);
    lemma_sections_concat(commits, x + seq![t], y);
    lemma_sections_concat(commits, x, seq![t]);
    let one = seq![t];
    assert(one.drop_last() =~= Seq::<Seq<char>>::empty());
    assert(one.last() == t);
    assert(sections(commits, one) == sections(commits, one.drop_last()) + section(commits, t));
    assert(sections(commits, Seq::<Seq<char>>::empty()) == Seq::<char>::empty());
    assert(sections(commits, one) =~= section(commits, t));
    let pre = "## [Unreleased] - "@ + date + "\n\n"@ + sections(commits, x);
    let post = sections(commits, y);
    assert(msgs.len() > 0);
    assert(changelog_spec(commits, date) =~= pre + category_title(t) + "\n\n"@ + bullets(msgs)
        + "\n"@ + post);
    assert(bullet_section_at(changelog_spec(commits, date), pre, category_title(t), msgs, post));
}

/// The listed commit types are distinct texts.
proof fn lemma_types_distinct()
    ensures
        "fix"@ != "feat"@,
        "docs"@ != "feat"@,
        "docs"@ != "fix"@,
        "style"@ != "feat"@,
        "style"@ != "fix"@,
        "style"@ != "docs"@,
        "refactor"@ != "feat"@,
        "refactor"@ != "fix"@,
        "refactor"@ != "docs"@,
        "refactor"@ != "style"@,
        "perf"@ != "feat"@,
        "perf"@ != "fix"@,
        "perf"@ != "docs"@,
        "perf"@ != "style"@,
        "perf"@ != "refactor"@,
        "test"@ != "feat"@,
        "test"@ != "fix"@,
        "test"@ != "docs"@,
        "test"@ != "style"@,
        "test"@ != "refactor"@,
        "test"@ != "perf"@,
        "build"@ != "feat"@,
        "build"@ != "fix"@,
        "build"@ != "docs"@,
        "build"@ != "style"@,
        "build"@ != "refactor"@,
        "build"@ != "perf"@,
        "build"@ != "test"@,
        "ci"@ != "feat"@,
        "ci"@ != "fix"@,
        "ci"@ != "docs"@,
        "ci"@ != "style"@,
        "ci"@ != "refactor"@,
        "ci"@ != "perf"@,
        "ci"@ != "test"@,
        "ci"@ != "build"@,
        "chore"@ != "feat"@,
        "chore"@ != "fix"@,
        "chore"@ != "docs"@,
        "chore"@ != "style"@,
        "chore"@ != "refactor"@,
        "chore"@ != "perf"@,
        "chore"@ != "test"@,
        "chore"@ != "build"@,
        "chore"@ != "ci"@,
{
    reveal_strlit("feat");
    reveal_strlit("fix");
    reveal_strlit("docs");
    reveal_strlit("style");
    reveal_strlit("refactor");
    reveal_strlit("perf");
    reveal_strlit("test");
    reveal_strlit("build");
    reveal_strlit("ci");
    reveal_strlit("chore");
    assert("fix"@.len() != "feat"@.len());
    assert("docs"@[0] != "feat"@[0]);
    assert("docs"@.len() != "fix"@.len());
    assert("style"@.len() != "feat"@.len());
    assert("style"@.len() != "fix"@.len());
    assert("style"@.len() != "docs"@.len());
    assert("refactor"@.len() != "feat"@.len());
    assert("refactor"@.len() != "fix"@.len());
    assert("refactor"@.len() != "docs"@.len());
    assert("refactor"@.len() != "style"@.len());
    assert("perf"@[0] != "feat"@[0]);
    assert("perf"@.len() != "fix"@.len());
    assert("perf"@[0] != "docs"@[0]);
    assert("perf"@.len() != "style"@.len());
    assert("perf"@.len() != "refactor"@.len());
    assert("test"@[0] != "feat"@[0]);
    assert("test"@.len() != "fix"@.len());
    assert("test"@[0] != "docs"@[0]);
    assert("test"@.len() != "style"@.len());
    assert("test"@.len() != "refactor"@.len());
    assert("test"@[0] != "perf"@[0]);
    assert("build"@.len() != "feat"@.len());
    assert("build"@.len() != "fix"@.len());
    assert("build"@.len() != "docs"@.len());
    assert("build"@[0] != "style"@[0]);
    assert("build"@.len() != "refactor"@.len());
    assert("build"@.len() != "perf"@.len());
    assert("build"@.len() != "test"@.len());
    assert("ci"@.len() != "feat"@.len());
    assert("ci"@.len() != "fix"@.len());
    assert("ci"@.len() != "docs"@.len());
    assert("ci"@.len() != "style"@.len());
    assert("ci"@.len() != "refactor"@.len());
    assert("ci"@.len() != "perf"@.len());
    assert("ci"@.len() != "test"@.len());
    assert("ci"@.len() != "build"@.len());
    assert("chore"@.len() != "feat"@.len());
    assert("chore"@.len() != "fix"@.len());
    assert("chore"@.len() != "docs"@.len());
    assert("chore"@[0] != "style"@[0]);
    assert("chore"@.len() != "refactor"@.len());
    assert("chore"@.len() != "perf"@.len());
    assert("chore"@.len() != "test"@.len());
    assert("chore"@[0] != "build"@[0]);
    assert("chore"@.len() != "ci"@.len());
}

/// Every commit of one of the types feat, fix, docs, style, refactor, perf, test,
/// build, ci and chore has its message listed as a bullet under that type's heading.
pub proof fn law_typed_commits_are_listed(commits: Seq<Seq<char>>, date: Seq<char>, i: int)
    requires
        0 <= i < commits.len(),
    ensures
        ({
            let (t, m) = parse_commit_spec(commits[i]);
            let log = changelog_spec(commits, date);
            &&& t == "feat"@ ==> listed_under(log, "### ✨ Features"@, m)
            &&& t == "fix"@ ==> listed_under(log, "### 🐛 Bug Fixes"@, m)
            &&& t == "docs"@ ==> listed_under(log, "### 📚 Documentation"@, m)
            &&& t == "style"@ ==> listed_under(log, "### 💎 Styles"@, m)
            &&& t == "refactor"@ ==> listed_under(log, "### ♻️  Refactoring"@, m)
            &&& t == "perf"@ ==> listed_under(log, "### ⚡ Performance"@, m)
            &&& t == "test"@ ==> listed_under(log, "### ✅ Tests"@, m)
            &&& t == "build"@ ==> listed_under(log, "### 🔨 Build"@, m)
            &&& t == "ci"@ ==> listed_under(log, "### 👷 CI/CD"@, m)
            &&& t == "chore"@ ==> listed_under(log, "### 🔧 Chores"@, m)
        }),
{
    reveal_strlit("feat");
    reveal_strlit("fix");
    reveal_strlit("docs");
    reveal_strlit("style");
    reveal_strlit("refactor");
    reveal_strlit("perf");
    reveal_strlit("test");
    reveal_strlit("build");
    reveal_strlit("ci");
    reveal_strlit("chore");
    lemma_types_distinct();
    let t = parse_commit_spec(commits[i]).0;
    let cats = category_order();
    if t == "feat"@ {
        assert(cats[0] == t);
        assert(category_title(t) == "### ✨ Features"@);
        lemma_listed_at(commits, date, i, 0);
    }
    if t == "fix"@ {
        assert(cats[1] == t);
        assert(category_title(t) == "### 🐛 Bug Fixes"@);
        lemma_listed_at(commits, date, i, 1);
    }
    if t == "docs"@ {
        assert(cats[2] == t);
        assert(category_title(t) == "### 📚 Documentation"@);
        lemma_listed_at(commits, date, i, 2);
    }
    if t == "style"@ {
        assert(cats[3] == t);
        assert(category_title(t) == "### 💎 Styles"@);
        lemma_listed_at(commits, date, i, 3);
    }
    if t == "refactor"@ {
        assert(cats[4] == t);
        assert(category_title(t) == "### ♻️  Refactoring"@);
        lemma_listed_at(commits, date, i, 4);
    }
    if t == "perf"@ {
        assert(cats[5] == t);
        assert(category_title(t) == "### ⚡ Performance"@);
        lemma_listed_at(commits, date, i, 5);
    }
    if t == "test"@ {
        assert(cats[6] == t);
        assert(category_title(t) == "### ✅ Tests"@);
        lemma_listed_at(commits, date, i, 6);
    }
    if t == "build"@ {
        assert(cats[7] == t);
        assert(category_title(t) == "### 🔨 Build"@);
        lemma_listed_at(commits, date, i, 7);
    }
    if t == "ci"@ {
        assert(cats[8] == t);
        assert(category_title(t) == "### 👷 CI/CD"@);
        lemma_listed_at(commits, date, i, 8);
    }
    if t == "chore"@ {
        assert(cats[9] == t);
        assert(category_title(t) == "### 🔧 Chores"@);
        lemma_listed_at(commits, date, i, 9);
    }
}

/// Splits a commit subject `type(scope): message` into its type and message.
pub fn parse_conventional_commit(commit: &str) -> (r: (String, String))
    ensures
        (r.0@, r.1@) == parse_commit_spec(commit@),
{
    match find_char(commit, ':') {
        Some(p) => {
            let n = commit.unicode_len();
            let prefix = commit.substring_char(0, p);
            let rest = commit.substring_char(p + 1, n);
            assert(prefix@ =~= commit@.take(p as int));
            assert(rest@ =~= commit@.skip(p + 1));
            let ty = match find_char(prefix, '(') {
                Some(q) => {
                    let t = prefix.substring_char(0, q);
                    assert(t@ =~= prefix@.take(q as int));
                    t
                },
                None => prefix,
            };
            (owned(trim(ty)), owned(trim(rest)))
        },
        None => {
            proof {
                reveal_strlit("other");
            }
            (owned("other"), owned(commit))
        },
    }
}

/// The heading of the section for commit type `cat`.
pub fn section_title(cat: &str) -> (r: &'static str)
    ensures
        r@ == category_title(cat@),
{
    if str_equal(cat, "feat") {
        "### ✨ Features"
    } else if str_equal(cat, "fix") {
        "### 🐛 Bug Fixes"
    } else if str_equal(cat, "docs") {
        "### 📚 Documentation"
    } else if str_equal(cat, "style") {
        "### 💎 Styles"
    } else if str_equal(cat, "refactor") {
        "### ♻️  Refactoring"
    } else if str_equal(cat, "perf") {
        "### ⚡ Performance"
    } else if str_equal(cat, "test") {
        "### ✅ Tests"
    } else if str_equal(cat, "build") {
        "### 🔨 Build"
    } else if str_equal(cat, "ci") {
        "### 👷 CI/CD"
    } else if str_equal(cat, "chore") {
        "### 🔧 Chores"
    } else {
        "### Other"
    }
}

/// The parsed (type, message) of each subject.
fn parse_all(commits: &Vec<String>) -> (r: Vec<(String, String)>)
    ensures
        r@.len() == commits@.len(),
        forall|j: int|
            0 <= j < r@.len() ==> ((#[trigger] r@[j]).0@, r@[j].1@) == parse_commit_spec(
                commits@[j]@,
            ),
{
    let mut out: Vec<(String, String)> = Vec::new();
    let mut i: usize = 0;
    while i < commits.len()
        invariant
            i <= commits.len(),
            out@.len() == i,
            forall|j: int|
                0 <= j < i ==> ((#[trigger] out@[j]).0@, out@[j].1@) == parse_commit_spec(
                    commits@[j]@,
                ),
        decreases commits.len() - i,
    {
        out.push(parse_conventional_commit(commits[i].as_str()));
        i = i + 1;
    }
    out
}

/// The section for type `cat` of the parsed subjects.
fn write_section(commits: &Vec<String>, parsed: &Vec<(String, String)>, cat: &str) -> (r: String)
    requires
        parsed@.len() == commits@.len(),
        forall|j: int|
            0 <= j < parsed@.len() ==> ((#[trigger] parsed@[j]).0@, parsed@[j].1@)
                == parse_commit_spec(commits@[j]@),
    ensures
        r@ == section(strings_view(commits@), cat@),
{
    let ghost all = strings_view(commits@);
    let mut body = String::new();
    let mut count: usize = 0;
    let mut j: usize = 0;
    while j < parsed.len()
        invariant
            j <= parsed@.len(),
            parsed@.len() == commits@.len(),
            all == strings_view(commits@),
            forall|k: int|
                0 <= k < parsed@.len() ==> ((#[trigger] parsed@[k]).0@, parsed@[k].1@)
                    == parse_commit_spec(commits@[k]@),
            body@ == bullets(messages_in(all.take(j as int), cat@)),
            count == messages_in(all.take(j as int), cat@).len(),
            count <= j,
        decreases parsed@.len() - j,
    {
        let ghost prev = messages_in(all.take(j as int), cat@);
        assert(all.take(j + 1).drop_last() =~= all.take(j as int));
        assert(all.take(j + 1).last() == commits@[j as int]@);
        if str_equal(parsed[j].0.as_str(), cat) {
            body.append("- ");
            body.append(parsed[j].1.as_str());
            body.append("\n");
            count = count + 1;
            assert(messages_in(all.take(j + 1), cat@) == prev.push(parsed@[j as int].1@));
            assert(messages_in(all.take(j + 1), cat@).drop_last() =~= prev);
        }
        j = j + 1;
    }
    assert(all.take(parsed@.len() as int) =~= all);
    if count == 0 {
        String::new()
    } else {
        let mut r = owned(section_title(cat));
        r.append("\n\n");
        r.append(body.as_str());
        r.append("\n");
        r
    }
}

/// The changelog entry for the commit subjects `commits`, dated `date`: a heading, then
/// one section per commit type in the fixed order, each listing its messages.
pub fn format_changelog_dated(commits: &Vec<String>, date: &str) -> (r: String)
    ensures
        r@ == changelog_spec(strings_view(commits@), date@),
{
    let parsed = parse_all(commits);
    let order: Vec<&str> = vec![
        "feat",
        "fix",
        "docs",
        "style",
        "refactor",
        "perf",
        "test",
        "build",
        "ci",
        "chore",
    ];
    let ghost cats = category_order();
    assert(order@.map_values(|c: &str| c@) =~= cats);
    let mut out = concat3("## [Unreleased] - ", date, "\n\n");
    let ghost head = out@;
    let mut k: usize = 0;
    while k < order.len()
        invariant
            k <= order@.len(),
            order@.map_values(|c: &str| c@) == cats,
            cats == category_order(),
            parsed@.len() == commits@.len(),
            forall|j: int|
                0 <= j < parsed@.len() ==> ((#[trigger] parsed@[j]).0@, parsed@[j].1@)
                    == parse_commit_spec(commits@[j]@),
            out@ == head + sections(strings_view(commits@), cats.take(k as int)),
        decreases order@.len() - k,
    {
        let sec = write_section(commits, &parsed, order[k]);
        assert(cats.take(k + 1).drop_last() =~= cats.take(k as int));
        assert(cats.take(k + 1).last() == order@[k as int]@);
        out.append(sec.as_str());
        k = k + 1;
    }
    assert(cats.take(order@.len() as int) =~= cats);
    out
}

/// The changelog entry for `commits`, dated today in local time.
pub fn format_changelog(commits: &Vec<String>) -> (r: String)
    ensures
        exists|date: Seq<char>|
            date_text(date) && r@ == changelog_spec(strings_view(commits@), date),
{
    let date = local_date();
    format_changelog_dated(commits, date.as_str())
}

/// The changelog file after adding `entry`: a new file gets a `# Changelog` heading;
/// an existing one keeps its text, with the entry after a blank line.
pub fn changelog_file_content(existing: &str, entry: &str) -> (r: String)
    ensures
        r@ == if existing@.len() == 0 {
            "# Changelog\n\n"@ + entry@
        } else {
            existing@ + "\n\n"@ + entry@
        },
{
    if existing.unicode_len() == 0 {
        concat2("# Changelog\n\n", entry)
    } else {
        concat3(existing, "\n\n", entry)
    }
}

} // verus!
