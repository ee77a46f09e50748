//! Conventional commits: the commit types and scopes offered, the scopes suggested by
//! the files being committed, the checks on a description, and the message built from
//! the answers.
use vstd::prelude::*;

use crate::pathname::{components, extension, parent, path_components, path_extension, path_parent};
use crate::text::{
    ascii_lower, char_uppercase, concat2, eq_ignore_ascii_case, has_prefix, is_uppercase, join,
    join_spec, lines, lines_spec, owned, replace_all, replace_spec, starts_with, str_equal,
    strings_view, trim, trim_spec, utf8_len, utf8_len_exceeds,
};

verus! {

/// The commit types offered, with their descriptions.
pub open spec fn commit_type_list() -> Seq<(Seq<char>, Seq<char>)> {
    seq![
        ("feat"@, "✨ A new feature"@),
        ("fix"@, "🐛 A bug fix"@),
        ("docs"@, "📚 Documentation only changes"@),
        ("style"@, "💎 Code style changes (formatting, semicolons, etc.)"@),
        ("refactor"@, "♻️  Code refactoring without changing functionality"@),
        ("perf"@, "⚡ Performance improvements"@),
        ("test"@, "✅ Adding or updating tests"@),
        ("build"@, "🔨 Build system or external dependencies"@),
        ("ci"@, "👷 CI/CD configuration changes"@),
        ("chore"@, "🔧 Other changes that don't modify src or test files"@),
        ("revert"@, "⏪ Revert a previous commit"@),
    ]
}

/// The scopes offered, after the project's layout.
pub open spec fn common_scope_list() -> Seq<Seq<char>> {
    seq![
        "cli"@,
        "core"@,
        "git"@,
        "providers"@,
        "api"@,
        "daemon"@,
        "ui"@,
        "utils"@,
        "config"@,
        "auth"@,
        "sync"@,
        "health"@,
        "error"@,
        "docs"@,
        "test"@,
    ]
}

/// The commit types offered, with their descriptions.
pub fn commit_types() -> (r: Vec<(&'static str, &'static str)>)
    ensures
        r@.map_values(|p: (&'static str, &'static str)| (p.0@, p.1@)) == commit_type_list(),
{
    let r = vec![
        ("feat", "✨ A new feature"),
        ("fix", "🐛 A bug fix"),
        ("docs", "📚 Documentation only changes"),
        ("style", "💎 Code style changes (formatting, semicolons, etc.)"),
        ("refactor", "♻️  Code refactoring without changing functionality"),
        ("perf", "⚡ Performance improvements"),
        ("test", "✅ Adding or updating tests"),
        ("build", "🔨 Build system or external dependencies"),
        ("ci", "👷 CI/CD configuration changes"),
        ("chore", "🔧 Other changes that don't modify src or test files"),
        ("revert", "⏪ Revert a previous commit"),
    ];
    assert(r@.map_values(|p: (&'static str, &'static str)| (p.0@, p.1@)) =~= commit_type_list());
    r
}

/// The scopes offered.
pub fn common_scopes() -> (r: Vec<&'static str>)
    ensures
        r@.map_values(|s: &'static str| s@) == common_scope_list(),
{
    let r = vec![
        "cli",
        "core",
        "git",
        "providers",
        "api",
        "daemon",
        "ui",
        "utils",
        "config",
        "auth",
        "sync",
        "health",
        "error",
        "docs",
        "test",
    ];
    assert(r@.map_values(|s: &'static str| s@) =~= common_scope_list());
    r
}

/// Whether `s` is one of the scopes offered.
pub fn is_common_scope(s: &str) -> (r: bool)
    ensures
        r == common_scope_list().contains(s@),
{
    let scopes = common_scopes();
    let ghost list = common_scope_list();
    let mut i: usize = 0;
    while i < scopes.len()
        invariant
            i <= scopes@.len(),
            scopes@.map_values(|x: &'static str| x@) == list,
            list == common_scope_list(),
            forall|j: int| 0 <= j < i ==> list[j] != s@,
        decreases scopes@.len() - i,
    {
        assert(list[i as int] == scopes@[i as int]@);
        if str_equal(scopes[i], s) {
            assert(list.contains(s@)) by {
                assert(list[i as int] == s@);
            }
            return true;
        }
        i = i + 1;
    }
    assert(!list.contains(s@)) by {
        if list.contains(s@) {
            let j = choose|j: int| 0 <= j < list.len() && list[j] == s@;
            assert(list[j] != s@);
        }
    }
    false
}

/// Whether a path's extension is `md`, in any ASCII case.
pub open spec fn markdown_file(f: Seq<char>) -> bool {
    match path_extension(f) {
        Some(e) => e.len() == 2 && ascii_lower(e[0]) == ascii_lower('m') && ascii_lower(e[1])
            == ascii_lower('d'),
        None => false,
    }
}

/// The scopes that file `f` suggests: the directory below the top one when it is an
/// offered scope; then `test` under `tests/`, else `docs` for Markdown, else `build` for
/// the Cargo files (these last only for files inside some directory).
pub open spec fn file_scopes(f: Seq<char>) -> Seq<Seq<char>> {
    match path_parent(f) {
        None => Seq::empty(),
        Some(dir) => {
            let parts = path_components(dir);
            let inner = if parts.len() >= 2 && common_scope_list().contains(parts[1]) {
                seq![parts[1]]
            } else {
                Seq::empty()
            };
            let top = if parts.len() >= 1 {
                if parts[0] == "tests"@ {
                    seq!["test"@]
                } else if markdown_file(f) {
                    seq!["docs"@]
                } else if f == "Cargo.toml"@ || f == "Cargo.lock"@ {
                    seq!["build"@]
                } else {
                    Seq::empty()
                }
            } else {
                Seq::empty()
            };
            inner + top
        },
    }
}

/// The scopes that the files suggest, together.
pub open spec fn detected_scopes(files: Seq<Seq<char>>) -> Set<Seq<char>>
    decreases files.len(),
{
    if files.len() == 0 {
        Set::empty()
    } else {
        detected_scopes(files.drop_last()).union(file_scopes(files.last()).to_set())
    }
}

/// The scopes that file `f` suggests, in order.
fn scopes_of_file(f: &str) -> (r: Vec<String>)
    ensures
        strings_view(r@) == file_scopes(f@),
{
    let mut out: Vec<String> = Vec::new();
    match parent(f) {
        None => {},
        Some(dir) => {
            let parts = components(dir.as_str());
            let ghost pv = path_components(dir@);
            assert(parts@.len() == pv.len());
            if parts.len() >= 2 {
                assert(parts@[1]@ == pv[1]);
                if is_common_scope(parts[1].as_str()) {
                    out.push(parts[1].clone());
                }
            }
            let ghost inner = strings_view(out@);
            if parts.len() >= 1 {
                assert(parts@[0]@ == pv[0]);
                if str_equal(parts[0].as_str(), "tests") {
                    out.push(owned("test"));
                } else if is_markdown_file(f) {
                    out.push(owned("docs"));
                } else if str_equal(f, "Cargo.toml") || str_equal(f, "Cargo.lock") {
                    out.push(owned("build"));
                }
            }
            assert(strings_view(out@) =~= file_scopes(f@));
        },
    }
    out
}

/// Whether `f` is a Markdown file.
fn is_markdown_file(f: &str) -> (r: bool)
    ensures
        r == markdown_file(f@),
{
    match extension(f) {
        Some(e) => {
            let r = eq_ignore_ascii_case(e.as_str(), "md");
            proof {
                reveal_strlit("md");
            }
            r
        },
        None => false,
    }
}

/// Whether `v` holds the text `s`.
fn contains_text(v: &Vec<String>, s: &str) -> (r: bool)
    ensures
        r == strings_view(v@).contains(s@),
{
    let mut i: usize = 0;
    while i < v.len()
        invariant
            i <= v@.len(),
            forall|j: int| 0 <= j < i ==> v@[j]@ != s@,
        decreases v@.len() - i,
    {
        if str_equal(v[i].as_str(), s) {
            assert(strings_view(v@)[i as int] == s@);
            return true;
        }
        i = i + 1;
    }
    assert(!strings_view(v@).contains(s@)) by {
        if strings_view(v@).contains(s@) {
            let j = choose|j: int| 0 <= j < v@.len() && strings_view(v@)[j] == s@;
            assert(v@[j]@ != s@);
        }
    }
    false
}

/// The scopes that the files being committed suggest, each once, in the order first
/// suggested.
pub fn detect_scopes_from_files(files: &Vec<String>) -> (r: Vec<String>)
    ensures
        strings_view(r@).to_set() == detected_scopes(strings_view(files@)),
        strings_view(r@).no_duplicates(),
{
    let ghost fv = strings_view(files@);
    let mut out: Vec<String> = Vec::new();
    let mut i: usize = 0;
    while i < files.len()
        invariant
            i <= files@.len(),
            fv == strings_view(files@),
            strings_view(out@).to_set() == detected_scopes(fv.take(i as int)),
            strings_view(out@).no_duplicates(),
        decreases files@.len() - i,
    {
        assert(fv.take(i + 1).drop_last() =~= fv.take(i as int));
        assert(fv.take(i + 1).last() == files@[i as int]@);
        let found = scopes_of_file(files[i].as_str());
        let ghost start = strings_view(out@).to_set();
        let mut k: usize = 0;
        while k < found.len()
            invariant
                k <= found@.len(),
                strings_view(out@).to_set() == start.union(strings_view(found@).take(k as int).to_set()),
                strings_view(out@).no_duplicates(),
            decreases found@.len() - k,
        {
            let ghost before = strings_view(out@);
            assert(strings_view(found@).take(k + 1) =~= strings_view(found@).take(k as int).push(
                found@[k as int]@,
            ));
            proof {
                strings_view(found@).take(k as int).lemma_push_to_set_commute(found@[k as int]@);
            }
            if !contains_text(&out, found[k].as_str()) {
                out.push(found[k].clone());
                assert(strings_view(out@) =~= before.push(found@[k as int]@));
                proof {
                    before.lemma_push_to_set_commute(found@[k as int]@);
                }
            }
            assert(strings_view(out@).to_set() =~= start.union(
                strings_view(found@).take(k + 1).to_set(),
            ));
            k = k + 1;
        }
        assert(strings_view(found@).take(found@.len() as int) =~= strings_view(found@));
        i = i + 1;
    }
    assert(fv.take(files@.len() as int) =~= fv);
    out
}

/// The common scopes that were not detected, in order.
pub open spec fn undetected(common: Seq<Seq<char>>, detected: Seq<Seq<char>>) -> Seq<Seq<char>>
    decreases common.len(),
{
    if common.len() == 0 {
        Seq::empty()
    } else if detected.contains(common.last()) {
        undetected(common.drop_last(), detected)
    } else {
        undetected(common.drop_last(), detected).push(common.last())
    }
}

/// The choices offered for the scope: none, each detected scope marked `(detected)`, the
/// other common scopes, and a custom one.
pub open spec fn scope_choices(detected: Seq<Seq<char>>) -> Seq<Seq<char>> {
    seq!["(no scope)"@] + detected.map_values(|d: Seq<char>| d + " (detected)"@) + undetected(
        common_scope_list(),
        detected,
    ) + seq!["(enter custom scope)"@]
}

/// The choices offered for the scope, given the detected scopes.
pub fn scope_options(detected: &Vec<String>) -> (r: Vec<String>)
    ensures
        strings_view(r@) == scope_choices(strings_view(detected@)),
{
    let ghost dv = strings_view(detected@);
    let mut out: Vec<String> = Vec::new();
    out.push(owned("(no scope)"));
    let mut i: usize = 0;
    while i < detected.len()
        invariant
            i <= detected@.len(),
            dv == strings_view(detected@),
            strings_view(out@) == seq!["(no scope)"@] + dv.take(i as int).map_values(
                |d: Seq<char>| d + " (detected)"@,
            ),
        decreases detected@.len() - i,
    {
        let ghost before = strings_view(out@);
        out.push(concat2(detected[i].as_str(), " (detected)"));
        assert(dv.take(i + 1).map_values(|d: Seq<char>| d + " (detected)"@) =~= dv.take(
            i as int,
        ).map_values(|d: Seq<char>| d + " (detected)"@).push(dv[i as int] + " (detected)"@));
        assert(strings_view(out@) =~= before.push(dv[i as int] + " (detected)"@));
        i = i + 1;
    }
    assert(dv.take(detected@.len() as int) =~= dv);
    let common = common_scopes();
    let ghost cl = common_scope_list();
    let ghost mid = strings_view(out@);
    let mut k: usize = 0;
    while k < common.len()
        invariant
            k <= common@.len(),
            common@.map_values(|x: &'static str| x@) == cl,
            cl == common_scope_list(),
            dv == strings_view(detected@),
            strings_view(out@) == mid + undetected(cl.take(k as int), dv),
        decreases common@.len() - k,
    {
        assert(cl.take(k + 1).drop_last() =~= cl.take(k as int));
        assert(cl.take(k + 1).last() == common@[k as int]@);
        let ghost before = strings_view(out@);
        if !contains_text(detected, common[k]) {
            out.push(owned(common[k]));
            assert(strings_view(out@) =~= before.push(common@[k as int]@));
        }
        k = k + 1;
    }
    assert(cl.take(common@.len() as int) =~= cl);
    let ghost before = strings_view(out@);
    out.push(owned("(enter custom scope)"));
    assert(strings_view(out@) =~= before.push("(enter custom scope)"@));
    out
}

/// The scope that a chosen option names: the option without its `(detected)` mark.
pub fn chosen_scope(option: &str) -> (r: String)
    ensures
        r@ == replace_spec(option@, " (detected)"@, ""@),
{
    proof {
        reveal_strlit(" (detected)");
    }
    replace_all(option, " (detected)", "")
}

/// What is wrong with a short description, if anything: empty after trimming, longer
/// than 72 bytes, or starting with an uppercase letter.
pub open spec fn description_problem(d: Seq<char>) -> Option<Seq<char>> {
    if trim_spec(d).len() == 0 {
        Some("Description cannot be empty"@)
    } else if utf8_len(d) > 72 {
        Some("Description should be 72 characters or less"@)
    } else if d.len() > 0 && char_uppercase(d[0]) {
        Some("Start with lowercase (conventional commits style)"@)
    } else {
        None
    }
}

/// Checks a short description.
pub fn validate_description(input: &str) -> (r: Result<(), &'static str>)
    ensures
        match description_problem(input@) {
            Some(m) => r is Err && r->Err_0@ == m,
            None => r is Ok,
        },
{
    if trim(input).unicode_len() == 0 {
        Err("Description cannot be empty")
    } else if utf8_len_exceeds(input, 72) {
        Err("Description should be 72 characters or less")
    } else if input.unicode_len() > 0 && is_uppercase(input.get_char(0)) {
        Err("Start with lowercase (conventional commits style)")
    } else {
        Ok(())
    }
}

/// The lines that are not comments (`#` first).
pub open spec fn uncommented(ls: Seq<Seq<char>>) -> Seq<Seq<char>>
    decreases ls.len(),
{
    if ls.len() == 0 {
        Seq::empty()
    } else if has_prefix(ls.last(), "#"@) {
        uncommented(ls.drop_last())
    } else {
        uncommented(ls.drop_last()).push(ls.last())
    }
}

/// The body as written in the editor: comment lines dropped, the rest joined and
/// trimmed; nothing if that leaves no text.
pub open spec fn body_spec(text: Seq<char>) -> Option<Seq<char>> {
    let cleaned = trim_spec(join_spec(uncommented(lines_spec(text)), "\n"@));
    if cleaned.len() == 0 {
        None
    } else {
        Some(cleaned)
    }
}

/// The body from the editor's text.
pub fn clean_body(text: &str) -> (r: Option<String>)
    ensures
        match body_spec(text@) {
            Some(b) => r is Some && r->0@ == b,
            None => r is None,
        },
{
    let all = lines(text);
    let ghost lv = strings_view(all@);
    let mut kept: Vec<String> = Vec::new();
    let mut i: usize = 0;
    while i < all.len()
        invariant
            i <= all@.len(),
            lv == strings_view(all@),
            strings_view(kept@) == uncommented(lv.take(i as int)),
        decreases all@.len() - i,
    {
        assert(lv.take(i + 1).drop_last() =~= lv.take(i as int));
        assert(lv.take(i + 1).last() == all@[i as int]@);
        let ghost before = strings_view(kept@);
        if !starts_with(all[i].as_str(), "#") {
            kept.push(all[i].clone());
            assert(strings_view(kept@) =~= before.push(all@[i as int]@));
        }
        i = i + 1;
    }
    assert(lv.take(all@.len() as int) =~= lv);
    let joined = join(&kept, "\n");
    let cleaned = trim(joined.as_str());
    if cleaned.unicode_len() == 0 {
        None
    } else {
        Some(owned(cleaned))
    }
}

/// An optional text answer: trimmed; nothing if empty.
pub fn optional_answer(text: &str) -> (r: Option<String>)
    ensures
        match r {
            Some(t) => t@ == trim_spec(text@) && t@.len() > 0,
            None => trim_spec(text@).len() == 0,
        },
{
    let t = trim(text);
    if t.unicode_len() == 0 {
        None
    } else {
        Some(owned(t))
    }
}

/// The first line of a commit message: `type(scope)!: description`.
pub open spec fn commit_head_spec(
    commit_type: Seq<char>,
    scope: Option<Seq<char>>,
    breaking: bool,
    description: Seq<char>,
) -> Seq<char> {
    commit_type + match scope {
        Some(s) => "("@ + s + ")"@,
        None => Seq::empty(),
    } + if breaking {
        "!"@
    } else {
        Seq::empty()
    } + ": "@ + description
}

/// The first line of `b`, or nothing when `b` has no line.
pub open spec fn first_line(b: Seq<char>) -> Seq<char> {
    if lines_spec(b).len() > 0 {
        lines_spec(b)[0]
    } else {
        Seq::empty()
    }
}

/// `text` after a blank line, when present.
pub open spec fn paragraph(text: Option<Seq<char>>) -> Seq<char> {
    match text {
        Some(t) => "\n\n"@ + t,
        None => Seq::empty(),
    }
}

/// The breaking-change notice: the body's first line, or the description without a
/// body; nothing for a change that breaks nothing.
pub open spec fn breaking_notice(breaking: bool, description: Seq<char>, body: Option<Seq<char>>) -> Seq<
    char,
> {
    if breaking {
        "\n\nBREAKING CHANGE: "@ + match body {
            Some(b) => first_line(b),
            None => description,
        }
    } else {
        Seq::empty()
    }
}

/// The commit message: the first line, then the body, the breaking-change notice and
/// the footer, each after a blank line.
pub open spec fn commit_message_spec(
    commit_type: Seq<char>,
    scope: Option<Seq<char>>,
    description: Seq<char>,
    body: Option<Seq<char>>,
    breaking: bool,
    footer: Option<Seq<char>>,
) -> Seq<char> {
    commit_head_spec(commit_type, scope, breaking, description) + paragraph(body)
        + breaking_notice(breaking, description, body) + paragraph(footer)
}

/// The view of an optional string slice.
pub open spec fn opt_view(o: Option<&str>) -> Option<Seq<char>> {
    match o {
        Some(s) => Some(s@),
        None => None,
    }
}

fn commit_head(commit_type: &str, scope: Option<&str>, breaking: bool, description: &str) -> (r:
    String)
    ensures
        r@ == commit_head_spec(commit_type@, opt_view(scope), breaking, description@),
{
    let mut message = owned(commit_type);
    match scope {
        Some(s) => {
            message.append("(");
            message.append(s);
            message.append(")");
        },
        None => {},
    }
    if breaking {
        message.append("!");
    }
    message.append(": ");
    message.append(description);
    proof {
        reveal_strlit("(");
        reveal_strlit(")");
        reveal_strlit("!");
    }
    message
}

fn append_paragraph(message: &mut String, text: Option<&str>)
    ensures
        final(message)@ == old(message)@ + paragraph(opt_view(text)),
{
    match text {
        Some(t) => {
            message.append("\n\n");
            message.append(t);
        },
        None => {},
    }
}

fn append_notice(message: &mut String, breaking: bool, description: &str, body: Option<&str>)
    ensures
        final(message)@ == old(message)@ + breaking_notice(breaking, description@, opt_view(body)),
{
    if breaking {
        message.append("\n\nBREAKING CHANGE: ");
        match body {
            Some(b) => {
                let ls = lines(b);
                if ls.len() > 0 {
                    message.append(ls[0].as_str());
                }
            },
            None => {
                message.append(description);
            },
        }
    }
}

/// Builds the conventional commit message.
pub fn build_commit_message(
    commit_type: &str,
    scope: Option<&str>,
    description: &str,
    body: Option<&str>,
    breaking: bool,
    footer: Option<&str>,
) -> (r: String)
    ensures
        r@ == commit_message_spec(
            commit_type@,
            opt_view(scope),
            description@,
            opt_view(body),
            breaking,
            opt_view(footer),
        ),
{
    let mut message = commit_head(commit_type, scope, breaking, description);
    append_paragraph(&mut message, body);
    append_notice(&mut message, breaking, description, body);
    append_paragraph(&mut message, footer);
    message
}

/// Every commit message starts with its first line: the type, the scope in brackets if
/// any, `!` for a breaking change, `: ` and the description. A body follows the first
/// line after a blank line. A breaking change carries a `BREAKING CHANGE: ` notice. A
/// footer, whenever one is given, ends the message after a blank line, with or without
/// a body.
pub proof fn law_commit_message_layout(
    commit_type: Seq<char>,
    scope: Option<Seq<char>>,
    description: Seq<char>,
    body: Option<Seq<char>>,
    breaking: bool,
    footer: Option<Seq<char>>,
)
    ensures
        ({
            let msg = commit_message_spec(commit_type, scope, description, body, breaking, footer);
            let first = commit_type + match scope {
                Some(sc) => "("@ + sc + ")"@,
                None => Seq::<char>::empty(),
            } + (if breaking {
                "!"@
            } else {
                Seq::<char>::empty()
            }) + ": "@ + description;
            &&& msg.len() >= first.len()
            &&& msg.take(first.len() as int) == first
            &&& body matches Some(b) ==> msg.len() >= first.len() + 2 + b.len() && msg.subrange(
                first.len() as int,
                first.len() + 2 + b.len() as int,
            ) == "\n\n"@ + b
            &&& footer matches Some(f) ==> msg.len() >= f.len() + 2 && msg.skip(
                msg.len() - f.len() - 2,
            ) == "\n\n"@ + f
            &&& footer is None && !breaking ==> msg == first + match body {
                Some(b) => "\n\n"@ + b,
                None => Seq::<char>::empty(),
            }
            &&& breaking ==> exists|i: int|
                0 <= i <= msg.len() && #[trigger] has_prefix(msg.skip(i), "BREAKING CHANGE: "@)
        }),
{
    reveal_strlit("\n\n");
    reveal_strlit("\n\nBREAKING CHANGE: ");
    reveal_strlit("BREAKING CHANGE: ");
    let msg = commit_message_spec(commit_type, scope, description, body, breaking, footer);
    let head = commit_head_spec(commit_type, scope, breaking, description);
    let p1 = paragraph(body);
    let nb = breaking_notice(breaking, description, body);
    let p2 = paragraph(footer);
    assert(msg == head + p1 + nb + p2);
    assert(msg.take(head.len() as int) =~= head);
    match body {
        Some(b) => {
            assert(msg.subrange(head.len() as int, head.len() + 2 + b.len() as int) =~= "\n\n"@ + b);
        },
        None => {},
    }
    match footer {
        Some(f) => {
            assert(msg.skip(msg.len() - f.len() - 2) =~= "\n\n"@ + f);
        },
        None => {
            assert(p2 =~= Seq::<char>::empty());
        },
    }
    if breaking {
        let i: int = (head.len() + p1.len() + 2) as int;
        let notice = "BREAKING CHANGE: "@;
        assert(msg.skip(i).take(notice.len() as int) =~= notice);
        assert(has_prefix(msg.skip(i), notice));
    } else {
        assert(nb =~= Seq::<char>::empty());
    }
    if footer is None && !breaking {
        assert(msg =~= head + p1);
    }
}

} // verus!
