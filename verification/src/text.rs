//! Text helpers over Unicode strings, specified over `Seq<char>`.
use vstd::prelude::*;
use vstd::string::*;

verus! {

// ---------------------------------------------------------------------------
// Character classes
// ---------------------------------------------------------------------------

/// The Unicode `White_Space` property: the characters that `char::is_whitespace`
/// accepts and that `str::trim` removes.
pub open spec fn is_ws(c: char) -> bool {
    let u = c as u32;
    ||| 0x09 <= u <= 0x0D
    ||| u == 0x20
    ||| u == 0x85
    ||| u == 0xA0
    ||| u == 0x1680
    ||| 0x2000 <= u <= 0x200A
    ||| u == 0x2028
    ||| u == 0x2029
    ||| u == 0x202F
    ||| u == 0x205F
    ||| u == 0x3000
}

/// Whether `c` is Unicode white space.
pub fn is_whitespace(c: char) -> (r: bool)
    ensures
        r == is_ws(c),
{
    let u = c as u32;
    (0x09 <= u && u <= 0x0D) || u == 0x20 || u == 0x85 || u == 0xA0 || u == 0x1680 || (0x2000
        <= u && u <= 0x200A) || u == 0x2028 || u == 0x2029 || u == 0x202F || u == 0x205F || u
        == 0x3000
}

/// What `char::is_alphanumeric` answers for a character (Unicode `Alphabetic` or `Numeric`).
pub uninterp spec fn char_alphanumeric(c: char) -> bool;

/// What `char::is_uppercase` answers for a character (Unicode `Uppercase`).
pub uninterp spec fn char_uppercase(c: char) -> bool;

/// What `str::to_lowercase` returns for a string (Unicode lowercase mapping).
pub uninterp spec fn lowercase(s: Seq<char>) -> Seq<char>;

/// Calls `char::is_alphanumeric`; the contract names its answer.
#[verifier::external_body]
pub fn is_alphanumeric(c: char) -> (r: bool)
    ensures
        r == char_alphanumeric(c),
{
    c.is_alphanumeric()
}

/// Calls `char::is_uppercase`; the contract names its answer.
#[verifier::external_body]
pub fn is_uppercase(c: char) -> (r: bool)
    ensures
        r == char_uppercase(c),
{
    c.is_uppercase()
}

/// A character that lowercasing leaves as it is and that is no white space: an ASCII
/// digit or an ASCII lowercase letter.
pub open spec fn lowercase_fixed(c: char) -> bool {
    ('0' <= c <= '9') || ('a' <= c <= 'z')
}

/// Text made of ASCII digits and ASCII lowercase letters only.
pub open spec fn lowercase_fixed_text(s: Seq<char>) -> bool {
    forall|i: int| 0 <= i < s.len() ==> lowercase_fixed(#[trigger] s[i])
}

/// Calls `str::to_lowercase`; the contract names its result, and states that text made
/// of ASCII digits and lowercase letters comes back unchanged (those characters have no
/// other lowercase form).
#[verifier::external_body]
pub fn to_lowercase(s: &str) -> (r: String)
    ensures
        r@ == lowercase(s@),
        lowercase_fixed_text(s@) ==> r@ == s@,
{
    s.to_lowercase()
}

/// The code of a character after ASCII lowercasing.
pub open spec fn ascii_lower(c: char) -> u32 {
    if 'A' <= c <= 'Z' {
        ((c as u32) + 32) as u32
    } else {
        c as u32
    }
}

// ---------------------------------------------------------------------------
// Equality and building
// ---------------------------------------------------------------------------

/// Whether two string slices hold the same characters.
pub fn str_equal(a: &str, b: &str) -> (r: bool)
    ensures
        r == (a@ == b@),
{
    let n = a.unicode_len();
    let m = b.unicode_len();
    if n != m {
        return false;
    }
    let mut i: usize = 0;
    while i < n
        invariant
            n == a@.len(),
            m == b@.len(),
            n == m,
            i <= n,
            forall|j: int| 0 <= j < i ==> a@[j] == b@[j],
        decreases n - i,
    {
        if a.get_char(i) != b.get_char(i) {
            return false;
        }
        i = i + 1;
    }
    assert(a@ =~= b@);
    true
}

/// Whether two string slices are equal when ASCII letters are compared without case.
pub fn eq_ignore_ascii_case(a: &str, b: &str) -> (r: bool)
    ensures
        r == (a@.len() == b@.len() && forall|j: int|
            0 <= j < a@.len() ==> ascii_lower(#[trigger] a@[j]) == ascii_lower(b@[j])),
{
    let n = a.unicode_len();
    let m = b.unicode_len();
    if n != m {
        return false;
    }
    let mut i: usize = 0;
    while i < n
        invariant
            n == a@.len(),
            m == b@.len(),
            n == m,
            i <= n,
            forall|j: int| 0 <= j < i ==> ascii_lower(#[trigger] a@[j]) == ascii_lower(b@[j]),
        decreases n - i,
    {
        let x = a.get_char(i);
        let y = b.get_char(i);
        let lx: u32 = if 'A' <= x && x <= 'Z' {
            (x as u32) + 32
        } else {
            x as u32
        };
        let ly: u32 = if 'A' <= y && y <= 'Z' {
            (y as u32) + 32
        } else {
            y as u32
        };
        if lx != ly {
            assert(ascii_lower(a@[i as int]) != ascii_lower(b@[i as int]));
            return false;
        }
        i = i + 1;
    }
    true
}

/// A new `String` holding the characters of `s`.
pub fn owned(s: &str) -> (r: String)
    ensures
        r@ == s@,
{
    String::from_str(s)
}

/// The concatenation of two string slices.
pub fn concat2(a: &str, b: &str) -> (r: String)
    ensures
        r@ == a@ + b@,
{
    let mut r = String::from_str(a);
    r.append(b);
    r
}

/// The concatenation of three string slices.
pub fn concat3(a: &str, b: &str, c: &str) -> (r: String)
    ensures
        r@ == a@ + b@ + c@,
{
    let mut r = String::from_str(a);
    r.append(b);
    r.append(c);
    r
}

// ---------------------------------------------------------------------------
// Trimming
// ---------------------------------------------------------------------------

/// `s` without its leading white space.
pub open spec fn trim_start_spec(s: Seq<char>) -> Seq<char>
    decreases s.len(),
{
    if s.len() > 0 && is_ws(s[0]) {
        trim_start_spec(s.drop_first())
    } else {
        s
    }
}

/// `s` without its trailing white space.
pub open spec fn trim_end_spec(s: Seq<char>) -> Seq<char>
    decreases s.len(),
{
    if s.len() > 0 && is_ws(s.last()) {
        trim_end_spec(s.drop_last())
    } else {
        s
    }
}

/// `s` without leading and trailing white space, as `str::trim` gives it.
pub open spec fn trim_spec(s: Seq<char>) -> Seq<char> {
    trim_end_spec(trim_start_spec(s))
}

/// `s` without leading and trailing white space.
pub fn trim(s: &str) -> (r: &str)
    ensures
        r@ == trim_spec(s@),
{
    let n = s.unicode_len();
    let mut i: usize = 0;
    assert(s@.skip(0) =~= s@);
    while i < n && is_whitespace(s.get_char(i))
        invariant
            n == s@.len(),
            i <= n,
            trim_start_spec(s@) == trim_start_spec(s@.skip(i as int)),
        decreases n - i,
    {
        assert(s@.skip(i as int).drop_first() =~= s@.skip(i + 1));
        i = i + 1;
    }
    let mut j: usize = n;
    assert(s@.skip(i as int) =~= s@.subrange(i as int, j as int));
    while j > i && is_whitespace(s.get_char(j - 1))
        invariant
            n == s@.len(),
            i <= j <= n,
            trim_start_spec(s@) == s@.subrange(i as int, n as int),
            trim_spec(s@) == trim_end_spec(s@.subrange(i as int, j as int)),
        decreases j - i,
    {
        assert(s@.subrange(i as int, j as int).drop_last() =~= s@.subrange(i as int, j - 1));
        j = j - 1;
    }
    s.substring_char(i, j)
}


// ---------------------------------------------------------------------------
// Searching
// ---------------------------------------------------------------------------

/// `p` is a prefix of `s`.
pub open spec fn has_prefix(s: Seq<char>, p: Seq<char>) -> bool {
    p.len() <= s.len() && s.take(p.len() as int) == p
}

/// `p` is a suffix of `s`.
pub open spec fn has_suffix(s: Seq<char>, p: Seq<char>) -> bool {
    p.len() <= s.len() && s.skip(s.len() - p.len()) == p
}

/// Whether `p` occurs in `s` starting at character index `i`.
pub fn starts_with_at(s: &str, i: usize, p: &str) -> (r: bool)
    requires
        i <= s@.len(),
    ensures
        r == has_prefix(s@.skip(i as int), p@),
{
    let n = s.unicode_len();
    let m = p.unicode_len();
    if m > n - i {
        return false;
    }
    let mut k: usize = 0;
    while k < m
        invariant
            n == s@.len(),
            m == p@.len(),
            i + m <= n,
            k <= m,
            forall|j: int| 0 <= j < k ==> s@[i + j] == p@[j],
        decreases m - k,
    {
        if s.get_char(i + k) != p.get_char(k) {
            assert(s@.skip(i as int).take(m as int)[k as int] != p@[k as int]);
            return false;
        }
        k = k + 1;
    }
    assert(s@.skip(i as int).take(m as int) =~= p@);
    true
}

/// Whether `s` starts with `p`.
pub fn starts_with(s: &str, p: &str) -> (r: bool)
    ensures
        r == has_prefix(s@, p@),
{
    assert(s@.skip(0) =~= s@);
    starts_with_at(s, 0, p)
}

/// Whether `s` ends with `p`.
pub fn ends_with(s: &str, p: &str) -> (r: bool)
    ensures
        r == has_suffix(s@, p@),
{
    let n = s.unicode_len();
    let m = p.unicode_len();
    if m > n {
        return false;
    }
    let r = starts_with_at(s, n - m, p);
    assert(s@.skip(n - m).take(m as int) =~= s@.skip(n - m));
    r
}

/// The index of the first occurrence of `c` in `s`, if any.
pub open spec fn char_index(s: Seq<char>, c: char) -> Option<int>
    decreases s.len(),
{
    if s.len() == 0 {
        None
    } else if s[0] == c {
        Some(0)
    } else {
        match char_index(s.drop_first(), c) {
            Some(i) => Some(i + 1),
            None => None,
        }
    }
}

/// `char_index` finds the first occurrence, or none when there is none.
pub proof fn lemma_char_index(s: Seq<char>, c: char)
    ensures
        match char_index(s, c) {
            Some(i) => 0 <= i < s.len() && s[i] == c && forall|j: int| 0 <= j < i ==> s[j] != c,
            None => forall|j: int| 0 <= j < s.len() ==> s[j] != c,
        },
    decreases s.len(),
{
    if s.len() > 0 && s[0] != c {
        lemma_char_index(s.drop_first(), c);
        assert forall|j: int| 0 < j < s.len() implies s[j] == s.drop_first()[j - 1] by {}
    }
}

/// The index of the first occurrence of `c` in `s`.
pub fn find_char(s: &str, c: char) -> (r: Option<usize>)
    ensures
        match r {
            Some(i) => i < s@.len() && s@[i as int] == c && forall|j: int|
                0 <= j < i ==> s@[j] != c,
            None => forall|j: int| 0 <= j < s@.len() ==> s@[j] != c,
        },
        match r {
            Some(i) => char_index(s@, c) == Some(i as int),
            None => char_index(s@, c) is None,
        },
{
    proof {
        lemma_char_index(s@, c);
    }
    let n = s.unicode_len();
    let mut i: usize = 0;
    while i < n
        invariant
            n == s@.len(),
            i <= n,
            forall|j: int| 0 <= j < i ==> s@[j] != c,
        decreases n - i,
    {
        if s.get_char(i) == c {
            proof {
                lemma_char_index(s@, c);
                match char_index(s@, c) {
                    Some(k) => {
                        if k > i {
                            assert(s@[i as int] != c);
                        }
                    },
                    None => {
                        assert(s@[i as int] != c);
                    },
                }
            }
            return Some(i);
        }
        i = i + 1;
    }
    None
}

/// The index of the last occurrence of `c` in `s`.
pub fn rfind_char(s: &str, c: char) -> (r: Option<usize>)
    ensures
        match r {
            Some(i) => i < s@.len() && s@[i as int] == c && forall|j: int|
                i < j < s@.len() ==> s@[j] != c,
            None => forall|j: int| 0 <= j < s@.len() ==> s@[j] != c,
        },
{
    let n = s.unicode_len();
    let mut i: usize = n;
    while i > 0
        invariant
            n == s@.len(),
            i <= n,
            forall|j: int| i <= j < n ==> s@[j] != c,
        decreases i,
    {
        if s.get_char(i - 1) == c {
            return Some(i - 1);
        }
        i = i - 1;
    }
    None
}

/// The number of occurrences of `c` in `s`.
pub open spec fn count_char(s: Seq<char>, c: char) -> nat
    decreases s.len(),
{
    if s.len() == 0 {
        0
    } else {
        count_char(s.drop_last(), c) + if s.last() == c {
            1nat
        } else {
            0nat
        }
    }
}

// ---------------------------------------------------------------------------
// Stripping repeated prefixes and suffixes
// ---------------------------------------------------------------------------

/// `s` with every trailing repetition of `p` removed, as `str::trim_end_matches` gives it.
pub open spec fn trim_end_matches_spec(s: Seq<char>, p: Seq<char>) -> Seq<char>
    decreases s.len(),
{
    if p.len() > 0 && has_suffix(s, p) {
        trim_end_matches_spec(s.take(s.len() - p.len()), p)
    } else {
        s
    }
}

/// `s` with every leading repetition of `p` removed, as `str::trim_start_matches` gives it.
pub open spec fn trim_start_matches_spec(s: Seq<char>, p: Seq<char>) -> Seq<char>
    decreases s.len(),
{
    if p.len() > 0 && has_prefix(s, p) {
        trim_start_matches_spec(s.skip(p.len() as int), p)
    } else {
        s
    }
}

/// `s` with every trailing repetition of `p` removed.
pub fn trim_end_matches<'a>(s: &'a str, p: &str) -> (r: &'a str)
    ensures
        r@ == trim_end_matches_spec(s@, p@),
{
    let n = s.unicode_len();
    let m = p.unicode_len();
    if m == 0 {
        return s;
    }
    let mut j: usize = n;
    assert(s@.take(n as int) =~= s@);
    loop
        invariant
            n == s@.len(),
            m == p@.len(),
            m > 0,
            j <= n,
            trim_end_matches_spec(s@, p@) == trim_end_matches_spec(s@.take(j as int), p@),
        ensures
            j <= n,
            trim_end_matches_spec(s@, p@) == s@.take(j as int),
        decreases j,
    {
        if j < m {
            break;
        }
        let found = starts_with_at(s, j - m, p);
        assert(s@.take(j as int).skip(j - m) =~= s@.skip(j - m).take(m as int));
        assert(has_suffix(s@.take(j as int), p@) == has_prefix(s@.skip(j - m), p@));
        if !found {
            break;
        }
        assert(s@.take(j as int).take(j - m) =~= s@.take(j - m));
        j = j - m;
    }
    assert(s@.take(j as int) =~= s@.subrange(0, j as int));
    s.substring_char(0, j)
}

/// `s` with every leading repetition of `p` removed.
pub fn trim_start_matches<'a>(s: &'a str, p: &str) -> (r: &'a str)
    ensures
        r@ == trim_start_matches_spec(s@, p@),
{
    let n = s.unicode_len();
    let m = p.unicode_len();
    if m == 0 {
        return s;
    }
    let mut i: usize = 0;
    assert(s@.skip(0) =~= s@);
    loop
        invariant
            n == s@.len(),
            m == p@.len(),
            m > 0,
            i <= n,
            trim_start_matches_spec(s@, p@) == trim_start_matches_spec(s@.skip(i as int), p@),
        ensures
            i <= n,
            trim_start_matches_spec(s@, p@) == s@.skip(i as int),
        decreases n - i,
    {
        let found = starts_with_at(s, i, p);
        if !found {
            break;
        }
        assert(s@.skip(i as int).skip(m as int) =~= s@.skip(i + m));
        i = i + m;
    }
    assert(s@.skip(i as int) =~= s@.subrange(i as int, n as int));
    s.substring_char(i, n)
}


// ---------------------------------------------------------------------------
// Splitting, lines and joining
// ---------------------------------------------------------------------------

/// The characters of each string in a sequence of strings.
pub open spec fn strings_view(v: Seq<String>) -> Seq<Seq<char>> {
    v.map_values(|x: String| x@)
}

/// The pieces of `s` between occurrences of `c`, as `str::split(c)` yields them.
pub open spec fn split_spec(s: Seq<char>, c: char) -> Seq<Seq<char>>
    decreases s.len(),
{
    if s.len() == 0 {
        seq![Seq::<char>::empty()]
    } else {
        let r = split_spec(s.drop_last(), c);
        if s.last() == c {
            r.push(Seq::<char>::empty())
        } else {
            r.update(r.len() - 1, r.last().push(s.last()))
        }
    }
}

/// Splitting always yields at least one piece.
pub proof fn lemma_split_nonempty(s: Seq<char>, c: char)
    ensures
        split_spec(s, c).len() >= 1,
    decreases s.len(),
{
    if s.len() > 0 {
        lemma_split_nonempty(s.drop_last(), c);
    }
}

/// Text free of the separator `c` only lengthens the last piece.
pub proof fn lemma_split_append_plain(p: Seq<char>, b: Seq<char>, c: char)
    requires
        !b.contains(c),
    ensures
        split_spec(p + b, c) == split_spec(p, c).update(
            split_spec(p, c).len() - 1,
            split_spec(p, c).last() + b,
        ),
    decreases b.len(),
{
    lemma_split_nonempty(p, c);
    if b.len() == 0 {
        assert(p + b =~= p);
        assert(split_spec(p, c).last() + b =~= split_spec(p, c).last());
        assert(split_spec(p, c).update(split_spec(p, c).len() - 1, split_spec(p, c).last())
            =~= split_spec(p, c));
    } else {
        let bl = b.drop_last();
        assert(!bl.contains(c)) by {
            if bl.contains(c) {
                let k = choose|k: int| 0 <= k < bl.len() && bl[k] == c;
                assert(b[k] == c);
            }
        }
        lemma_split_append_plain(p, bl, c);
        assert((p + b).drop_last() =~= p + bl);
        assert((p + b).last() == b.last());
        assert(b.last() != c) by {
            assert(b[b.len() - 1] == b.last());
        }
        assert(split_spec(p, c).last() + bl.push(b.last()) =~= split_spec(p, c).last() + b) by {
            assert(bl.push(b.last()) =~= b);
        }
        assert((split_spec(p, c).last() + bl).push(b.last()) =~= split_spec(p, c).last() + b);
    }
}

/// Two pieces free of `c` joined by one `c` split back into those two pieces.
pub proof fn lemma_split_two(a: Seq<char>, b: Seq<char>, c: char)
    requires
        !a.contains(c),
        !b.contains(c),
    ensures
        split_spec(a + seq![c] + b, c) == seq![a, b],
{
    let e = Seq::<char>::empty();
    lemma_split_append_plain(e, a, c);
    assert(e + a =~= a);
    assert(split_spec(e, c) == seq![e]);
    assert(e + a =~= a);
    assert(seq![e].update(0, e + a) =~= seq![a]);
    let ac = a + seq![c];
    assert(ac.drop_last() =~= a);
    assert(ac.last() == c);
    assert(split_spec(ac, c) =~= seq![a, e]);
    lemma_split_append_plain(ac, b, c);
    assert(e + b =~= b);
    assert(seq![a, e].update(1, e + b) =~= seq![a, b]);
}

/// The pieces of `s` between occurrences of `c`.
pub fn split_char(s: &str, c: char) -> (r: Vec<String>)
    ensures
        strings_view(r@) == split_spec(s@, c),
{
    let n = s.unicode_len();
    let mut pieces: Vec<String> = Vec::new();
    let mut start: usize = 0;
    let mut i: usize = 0;
    assert(s@.take(0) =~= Seq::<char>::empty());
    assert(s@.subrange(0, 0) =~= Seq::<char>::empty());
    assert(strings_view(pieces@) + seq![s@.subrange(0, 0)] =~= split_spec(s@.take(0), c));
    while i < n
        invariant
            n == s@.len(),
            start <= i <= n,
            strings_view(pieces@) + seq![s@.subrange(start as int, i as int)] == split_spec(
                s@.take(i as int),
                c,
            ),
        decreases n - i,
    {
        let ghost prev = split_spec(s@.take(i as int), c);
        assert(s@.take(i + 1).drop_last() =~= s@.take(i as int));
        if s.get_char(i) == c {
            let piece = owned(s.substring_char(start, i));
            pieces.push(piece);
            assert(strings_view(pieces@) =~= prev);
            start = i + 1;
            i = i + 1;
            assert(s@.subrange(start as int, i as int) =~= Seq::<char>::empty());
            assert(strings_view(pieces@) + seq![s@.subrange(start as int, i as int)]
                =~= prev.push(Seq::<char>::empty()));
        } else {
            i = i + 1;
            assert(s@.subrange(start as int, i - 1).push(s@[i - 1]) =~= s@.subrange(
                start as int,
                i as int,
            ));
            assert(strings_view(pieces@) + seq![s@.subrange(start as int, i as int)]
                =~= prev.update(prev.len() - 1, prev.last().push(s@[i - 1])));
        }
    }
    let last = owned(s.substring_char(start, n));
    pieces.push(last);
    assert(s@.take(n as int) =~= s@);
    assert(strings_view(pieces@) =~= split_spec(s@, c));
    pieces
}

/// A line without the carriage return that ended it.
pub open spec fn strip_cr(x: Seq<char>) -> Seq<char> {
    if x.len() > 0 && x.last() == '\r' {
        x.drop_last()
    } else {
        x
    }
}

/// The lines of `s`, as `str::lines` yields them: split at `\n`, a `\r` before the
/// `\n` dropped, and no empty last line after a final line ending.
pub open spec fn lines_spec(s: Seq<char>) -> Seq<Seq<char>> {
    let parts = split_spec(s, '\n');
    let init = parts.drop_last().map_values(|x: Seq<char>| strip_cr(x));
    if parts.last().len() == 0 {
        init
    } else {
        init.push(parts.last())
    }
}

/// The lines of `s`.
pub fn lines(s: &str) -> (r: Vec<String>)
    ensures
        strings_view(r@) == lines_spec(s@),
{
    let parts = split_char(s, '\n');
    proof {
        lemma_split_nonempty(s@, '\n');
    }
    let k = parts.len();
    let mut out: Vec<String> = Vec::new();
    let mut i: usize = 0;
    while i + 1 < k
        invariant
            k == parts@.len(),
            k >= 1,
            i + 1 <= k,
            strings_view(parts@) == split_spec(s@, '\n'),
            strings_view(out@) == split_spec(s@, '\n').take(i as int).map_values(
                |x: Seq<char>| strip_cr(x),
            ),
        decreases k - i,
    {
        let p: &str = parts[i].as_str();
        let m = p.unicode_len();
        assert(p@ == split_spec(s@, '\n')[i as int]);
        let line = if m > 0 && p.get_char(m - 1) == '\r' {
            assert(p@.subrange(0, m - 1) =~= p@.drop_last());
            owned(p.substring_char(0, m - 1))
        } else {
            owned(p)
        };
        assert(line@ == strip_cr(split_spec(s@, '\n')[i as int]));
        let ghost before = strings_view(out@);
        out.push(line);
        assert(strings_view(out@) =~= before.push(line@));
        assert(split_spec(s@, '\n').take(i + 1).map_values(|x: Seq<char>| strip_cr(x))
            =~= split_spec(s@, '\n').take(i as int).map_values(|x: Seq<char>| strip_cr(x)).push(
            strip_cr(split_spec(s@, '\n')[i as int]),
        ));
        i = i + 1;
        assert(strings_view(out@) =~= split_spec(s@, '\n').take(i as int).map_values(
            |x: Seq<char>| strip_cr(x),
        ));
    }
    let last: &str = parts[k - 1].as_str();
    assert(split_spec(s@, '\n').take(i as int) =~= split_spec(s@, '\n').drop_last());
    if last.unicode_len() > 0 {
        out.push(owned(last));
        assert(strings_view(out@) =~= lines_spec(s@));
    }
    out
}

/// The pieces joined with `sep` between neighbours.
pub open spec fn join_spec(parts: Seq<Seq<char>>, sep: Seq<char>) -> Seq<char>
    decreases parts.len(),
{
    if parts.len() == 0 {
        Seq::empty()
    } else if parts.len() == 1 {
        parts[0]
    } else {
        join_spec(parts.drop_last(), sep) + sep + parts.last()
    }
}

/// The strings joined with `sep` between neighbours.
pub fn join(parts: &Vec<String>, sep: &str) -> (r: String)
    ensures
        r@ == join_spec(strings_view(parts@), sep@),
{
    let mut res = String::new();
    let n = parts.len();
    let ghost v = strings_view(parts@);
    let mut i: usize = 0;
    assert(v.take(0) =~= Seq::<Seq<char>>::empty());
    while i < n
        invariant
            n == parts@.len(),
            v == strings_view(parts@),
            i <= n,
            res@ == join_spec(v.take(i as int), sep@),
        decreases n - i,
    {
        assert(v.take(i + 1).drop_last() =~= v.take(i as int));
        if i > 0 {
            res.append(sep);
        }
        res.append(parts[i].as_str());
        i = i + 1;
        assert(res@ =~= join_spec(v.take(i as int), sep@));
    }
    assert(v.take(n as int) =~= v);
    res
}

// ---------------------------------------------------------------------------
// Replacing
// ---------------------------------------------------------------------------

/// `s` with every non-overlapping occurrence of `pat`, scanned from the left, replaced
/// by `rep`, as `str::replace` gives it for a non-empty pattern.
pub open spec fn replace_spec(s: Seq<char>, pat: Seq<char>, rep: Seq<char>) -> Seq<char>
    decreases s.len(),
{
    if s.len() == 0 || pat.len() == 0 {
        s
    } else if has_prefix(s, pat) {
        rep + replace_spec(s.skip(pat.len() as int), pat, rep)
    } else {
        seq![s[0]] + replace_spec(s.drop_first(), pat, rep)
    }
}

/// `s` with every occurrence of the non-empty `pat` replaced by `rep`.
pub fn replace_all(s: &str, pat: &str, rep: &str) -> (r: String)
    requires
        pat@.len() > 0,
    ensures
        r@ == replace_spec(s@, pat@, rep@),
{
    let n = s.unicode_len();
    let m = pat.unicode_len();
    let mut res = String::new();
    let mut i: usize = 0;
    assert(s@.skip(0) =~= s@);
    while i < n
        invariant
            n == s@.len(),
            m == pat@.len(),
            m > 0,
            i <= n,
            replace_spec(s@, pat@, rep@) == res@ + replace_spec(s@.skip(i as int), pat@, rep@),
        decreases n - i,
    {
        let ghost before = res@;
        if starts_with_at(s, i, pat) {
            res.append(rep);
            assert(s@.skip(i as int).skip(m as int) =~= s@.skip(i + m));
            assert(before + (rep@ + replace_spec(s@.skip(i + m), pat@, rep@)) =~= res@
                + replace_spec(s@.skip(i + m), pat@, rep@));
            i = i + m;
        } else {
            res.append(s.substring_char(i, i + 1));
            assert(s@.skip(i as int).drop_first() =~= s@.skip(i + 1));
            assert(s@.subrange(i as int, i + 1) =~= seq![s@.skip(i as int)[0]]);
            assert(before + (seq![s@.skip(i as int)[0]] + replace_spec(
                s@.skip(i + 1),
                pat@,
                rep@,
            )) =~= res@ + replace_spec(s@.skip(i + 1), pat@, rep@));
            i = i + 1;
        }
    }
    assert(s@.skip(n as int) =~= Seq::<char>::empty());
    assert(res@ + Seq::<char>::empty() =~= res@);
    res
}


// ---------------------------------------------------------------------------
// Decimal integers
// ---------------------------------------------------------------------------

/// Why a decimal integer could not be read, as `std::num::IntErrorKind` names it.
#[derive(Debug, Clone, Copy, PartialEq, Eq, Structural)]
pub enum IntErrorKind {
    Empty,
    InvalidDigit,
    PosOverflow,
}

impl IntErrorKind {
    /// The message that `std::num::ParseIntError` displays for this kind.
    pub fn message(&self) -> (r: String)
        ensures
            r@ == int_error_message(*self),
    {
        match self {
            IntErrorKind::Empty => owned("cannot parse integer from empty string"),
            IntErrorKind::InvalidDigit => owned("invalid digit found in string"),
            IntErrorKind::PosOverflow => owned("number too large to fit in target type"),
        }
    }
}

/// The message that `std::num::ParseIntError` displays for each kind.
pub open spec fn int_error_message(k: IntErrorKind) -> Seq<char> {
    match k {
        IntErrorKind::Empty => "cannot parse integer from empty string"@,
        IntErrorKind::InvalidDigit => "invalid digit found in string"@,
        IntErrorKind::PosOverflow => "number too large to fit in target type"@,
    }
}

/// An ASCII decimal digit.
pub open spec fn is_digit(c: char) -> bool {
    '0' <= c <= '9'
}

/// The value of an ASCII decimal digit.
pub open spec fn digit_value(c: char) -> int {
    (c as int) - ('0' as int)
}

/// Reading the digits `d` after the value `acc` already read, left to right, stopping at
/// the first character that is no digit or that makes the value exceed `max`.
pub open spec fn parse_digits_spec(d: Seq<char>, acc: int, max: int) -> Result<u64, IntErrorKind>
    decreases d.len(),
{
    if d.len() == 0 {
        Ok(acc as u64)
    } else if !is_digit(d[0]) {
        Err(IntErrorKind::InvalidDigit)
    } else if acc * 10 + digit_value(d[0]) > max {
        Err(IntErrorKind::PosOverflow)
    } else {
        parse_digits_spec(d.drop_first(), acc * 10 + digit_value(d[0]), max)
    }
}

/// What `str::parse` gives for an unsigned integer type whose largest value is `max`:
/// an optional `+`, then decimal digits whose value stays within `max`.
pub open spec fn parse_unsigned_spec(s: Seq<char>, max: int) -> Result<u64, IntErrorKind> {
    if s.len() == 0 {
        Err(IntErrorKind::Empty)
    } else if (s[0] == '+' || s[0] == '-') && s.len() == 1 {
        Err(IntErrorKind::InvalidDigit)
    } else if s[0] == '+' {
        parse_digits_spec(s.drop_first(), 0, max)
    } else {
        parse_digits_spec(s, 0, max)
    }
}

/// What `str::parse::<u64>` gives.
pub open spec fn parse_u64_spec(s: Seq<char>) -> Result<u64, IntErrorKind> {
    parse_unsigned_spec(s, u64::MAX as int)
}

/// A successful read never exceeds the bound.
pub proof fn lemma_parse_digits_bound(d: Seq<char>, acc: int, max: int)
    requires
        0 <= acc <= max,
        max <= u64::MAX,
    ensures
        parse_digits_spec(d, acc, max) matches Ok(v) ==> v <= max,
    decreases d.len(),
{
    if d.len() > 0 && is_digit(d[0]) && acc * 10 + digit_value(d[0]) <= max {
        lemma_parse_digits_bound(d.drop_first(), acc * 10 + digit_value(d[0]), max);
    }
}

/// Reads an unsigned decimal integer no larger than `max`.
pub fn parse_unsigned(s: &str, max: u64) -> (r: Result<u64, IntErrorKind>)
    ensures
        r == parse_unsigned_spec(s@, max as int),
        r matches Ok(v) ==> v <= max,
{
    let n = s.unicode_len();
    if n == 0 {
        return Err(IntErrorKind::Empty);
    }
    let first = s.get_char(0);
    if (first == '+' || first == '-') && n == 1 {
        return Err(IntErrorKind::InvalidDigit);
    }
    let mut i: usize = if first == '+' {
        1
    } else {
        0
    };
    let ghost d = if first == '+' {
        s@.drop_first()
    } else {
        s@
    };
    assert(d =~= s@.skip(i as int));
    proof {
        lemma_parse_digits_bound(d, 0, max as int);
    }
    let mut acc: u64 = 0;
    while i < n
        invariant
            n == s@.len(),
            i <= n,
            acc <= max,
            parse_unsigned_spec(s@, max as int) == parse_digits_spec(
                s@.skip(i as int),
                acc as int,
                max as int,
            ),
        decreases n - i,
    {
        let c = s.get_char(i);
        assert(s@.skip(i as int)[0] == c);
        assert(s@.skip(i as int).drop_first() =~= s@.skip(i + 1));
        if !('0' <= c && c <= '9') {
            return Err(IntErrorKind::InvalidDigit);
        }
        let dv: u64 = (c as u32 - '0' as u32) as u64;
        if dv > max {
            assert(acc * 10 + dv > max) by (nonlinear_arith)
                requires
                    dv > max,
                    acc >= 0,
            ;
            return Err(IntErrorKind::PosOverflow);
        }
        if acc > (max - dv) / 10 {
            assert(acc * 10 + dv > max) by (nonlinear_arith)
                requires
                    acc > (max - dv) / 10,
                    dv <= max,
            ;
            return Err(IntErrorKind::PosOverflow);
        }
        assert(acc * 10 + dv <= max) by (nonlinear_arith)
            requires
                acc <= (max - dv) / 10,
                dv <= max,
        ;
        acc = acc * 10 + dv;
        i = i + 1;
    }
    assert(s@.skip(n as int).len() == 0);
    Ok(acc)
}

/// Reads an unsigned decimal integer that fits in `u64`.
pub fn parse_u64(s: &str) -> (r: Result<u64, IntErrorKind>)
    ensures
        r == parse_u64_spec(s@),
{
    parse_unsigned(s, u64::MAX)
}

/// Reads an unsigned decimal integer that fits in `u32`.
pub fn parse_u32(s: &str) -> (r: Result<u32, IntErrorKind>)
    ensures
        match parse_unsigned_spec(s@, u32::MAX as int) {
            Ok(v) => r == Ok::<u32, IntErrorKind>(v as u32),
            Err(k) => r == Err::<u32, IntErrorKind>(k),
        },
{
    match parse_unsigned(s, u32::MAX as u64) {
        Ok(v) => Ok(v as u32),
        Err(k) => Err(k),
    }
}

// ---------------------------------------------------------------------------
// Decimal text
// ---------------------------------------------------------------------------

/// Reading one more character after the digits `d`: the value read so far, times ten,
/// plus the new digit, as long as it stays within `max`.
pub proof fn lemma_parse_digits_push(d: Seq<char>, c: char, acc: int, max: int)
    requires
        0 <= acc <= max,
        max <= u64::MAX,
    ensures
        parse_digits_spec(d.push(c), acc, max) == match parse_digits_spec(d, acc, max) {
            Ok(v) => if !is_digit(c) {
                Err(IntErrorKind::InvalidDigit)
            } else if v * 10 + digit_value(c) > max {
                Err(IntErrorKind::PosOverflow)
            } else {
                Ok((v * 10 + digit_value(c)) as u64)
            },
            Err(e) => Err(e),
        },
    decreases d.len(),
{
    let dp = d.push(c);
    if d.len() == 0 {
        assert(dp.drop_first() =~= Seq::<char>::empty());
        assert(dp[0] == c);
        assert(parse_digits_spec(d, acc, max) == Ok::<u64, IntErrorKind>(acc as u64));
        assert((acc as u64) as int == acc);
        if is_digit(c) && acc * 10 + digit_value(c) <= max {
            assert(parse_digits_spec(dp.drop_first(), acc * 10 + digit_value(c), max) == Ok::<
                u64,
                IntErrorKind,
            >((acc * 10 + digit_value(c)) as u64));
        }
    } else {
        assert(dp[0] == d[0]);
        assert(dp.drop_first() =~= d.drop_first().push(c));
        if is_digit(d[0]) && acc * 10 + digit_value(d[0]) <= max {
            lemma_parse_digits_push(d.drop_first(), c, acc * 10 + digit_value(d[0]), max);
        }
    }
}

/// Every character of a decimal text is a digit, and there is at least one.
pub proof fn lemma_decimal_digits(n: nat)
    ensures
        decimal_spec(n).len() > 0,
        forall|i: int| 0 <= i < decimal_spec(n).len() ==> #[trigger] is_digit(decimal_spec(n)[i]),
    decreases n,
{
    if n >= 10 {
        lemma_decimal_digits(n / 10);
        let a = decimal_spec(n / 10);
        let full = a + seq![digit_char(n % 10)];
        assert forall|i: int| 0 <= i < full.len() implies #[trigger] is_digit(full[i]) by {
            if i < a.len() {
                assert(full[i] == a[i]);
            }
        }
    }
}

/// The digit character of `d` is a digit whose value is `d`.
pub proof fn lemma_digit_char(d: nat)
    requires
        d < 10,
    ensures
        is_digit(digit_char(d)),
        digit_value(digit_char(d)) == d,
{
    let u = (d + 48) as u32;
    assert(u == d + 48);
    assert((u as char) as int == u as int);
}

/// Reading the decimal text of `n` gives `n` back.
pub proof fn lemma_parse_decimal(n: nat, max: int)
    requires
        n <= max,
        max <= u64::MAX,
    ensures
        parse_digits_spec(decimal_spec(n), 0, max) == Ok::<u64, IntErrorKind>(n as u64),
    decreases n,
{
    if n < 10 {
        lemma_digit_char(n);
        let d = decimal_spec(n);
        assert(d == seq![digit_char(n)]);
        assert(d.drop_first() =~= Seq::<char>::empty());
        assert(parse_digits_spec(d.drop_first(), n as int, max) == Ok::<u64, IntErrorKind>(n as u64));
    } else {
        lemma_digit_char(n % 10);
        lemma_parse_decimal(n / 10, max);
        let a = decimal_spec(n / 10);
        let c = digit_char(n % 10);
        assert(decimal_spec(n) == a + seq![c]);
        assert(a + seq![c] =~= a.push(c));
        lemma_parse_digits_push(a, c, 0, max);
        assert(((n / 10) as u64) as int == n / 10);
        assert((n / 10) * 10 + n % 10 == n);
        assert(parse_digits_spec(a.push(c), 0, max) == Ok::<u64, IntErrorKind>(n as u64));
    }
}

/// A text whose first and last characters are no white space is its own trim.
pub proof fn lemma_trim_unchanged(s: Seq<char>)
    requires
        s.len() > 0,
        !is_ws(s[0]),
        !is_ws(s.last()),
    ensures
        trim_spec(s) == s,
{
}

/// Text of ASCII digits and lowercase letters has no white space to trim.
pub proof fn lemma_trim_fixed_text(s: Seq<char>)
    requires
        lowercase_fixed_text(s),
    ensures
        trim_spec(s) == s,
{
    if s.len() > 0 {
        assert(lowercase_fixed(s[0]));
        assert(lowercase_fixed(s[s.len() - 1]));
        lemma_trim_unchanged(s);
    } else {
        assert(trim_start_spec(s) == s);
    }
}

/// Reading the decimal text of `n` as an unsigned integer bounded by `max` gives `n`
/// back, also after trimming.
pub proof fn lemma_read_decimal(n: nat, max: int)
    requires
        n <= max,
        max <= u64::MAX,
    ensures
        parse_unsigned_spec(decimal_spec(n), max) == Ok::<u64, IntErrorKind>(n as u64),
        trim_spec(decimal_spec(n)) == decimal_spec(n),
{
    lemma_decimal_digits(n);
    lemma_parse_decimal(n, max);
    let d = decimal_spec(n);
    assert(is_digit(d[0]));
    assert(is_digit(d[d.len() - 1]));
    lemma_trim_unchanged(d);
}

/// The digit character for `d < 10`.
pub open spec fn digit_char(d: nat) -> char {
    ((d + 48) as u32) as char
}

/// The decimal text of `n`, as `to_string` writes it.
pub open spec fn decimal_spec(n: nat) -> Seq<char>
    decreases n,
{
    if n < 10 {
        seq![digit_char(n)]
    } else {
        decimal_spec(n / 10) + seq![digit_char(n % 10)]
    }
}

fn digit_str(d: u64) -> (r: &'static str)
    requires
        d < 10,
    ensures
        r@ == seq![digit_char(d as nat)],
{
    proof {
        reveal_strlit("0");
        reveal_strlit("1");
        reveal_strlit("2");
        reveal_strlit("3");
        reveal_strlit("4");
        reveal_strlit("5");
        reveal_strlit("6");
        reveal_strlit("7");
        reveal_strlit("8");
        reveal_strlit("9");
    }
    if d == 0 {
        "0"
    } else if d == 1 {
        "1"
    } else if d == 2 {
        "2"
    } else if d == 3 {
        "3"
    } else if d == 4 {
        "4"
    } else if d == 5 {
        "5"
    } else if d == 6 {
        "6"
    } else if d == 7 {
        "7"
    } else if d == 8 {
        "8"
    } else {
        "9"
    }
}

/// The decimal text of `n`.
pub fn decimal(n: u64) -> (r: String)
    ensures
        r@ == decimal_spec(n as nat),
    decreases n,
{
    if n < 10 {
        owned(digit_str(n))
    } else {
        let mut r = decimal(n / 10);
        r.append(digit_str(n % 10));
        r
    }
}

// ---------------------------------------------------------------------------
// UTF-8 length
// ---------------------------------------------------------------------------

/// The number of bytes UTF-8 uses for `c`.
pub open spec fn utf8_width(c: char) -> nat {
    let u = c as u32;
    if u < 0x80 {
        1
    } else if u < 0x800 {
        2
    } else if u < 0x10000 {
        3
    } else {
        4
    }
}

/// The number of bytes of the UTF-8 encoding of `s`, which is what `str::len` returns.
pub open spec fn utf8_len(s: Seq<char>) -> nat
    decreases s.len(),
{
    if s.len() == 0 {
        0
    } else {
        utf8_len(s.drop_last()) + utf8_width(s.last())
    }
}

/// The UTF-8 length of a prefix never exceeds that of the whole.
pub proof fn lemma_utf8_len_prefix(s: Seq<char>, i: int)
    requires
        0 <= i <= s.len(),
    ensures
        utf8_len(s.take(i)) <= utf8_len(s),
    decreases s.len() - i,
{
    if i < s.len() {
        lemma_utf8_len_prefix(s, i + 1);
        assert(s.take(i + 1).drop_last() =~= s.take(i));
    } else {
        assert(s.take(i) =~= s);
    }
}

/// Whether the UTF-8 encoding of `s` is longer than `limit` bytes.
pub fn utf8_len_exceeds(s: &str, limit: usize) -> (r: bool)
    requires
        limit <= usize::MAX - 4,
    ensures
        r == (utf8_len(s@) > limit),
{
    let n = s.unicode_len();
    let mut total: usize = 0;
    let mut i: usize = 0;
    assert(s@.take(0) =~= Seq::<char>::empty());
    while i < n
        invariant
            n == s@.len(),
            i <= n,
            total == utf8_len(s@.take(i as int)),
            total <= limit,
            limit <= usize::MAX - 4,
        decreases n - i,
    {
        let c = s.get_char(i);
        let u = c as u32;
        let w: usize = if u < 0x80 {
            1
        } else if u < 0x800 {
            2
        } else if u < 0x10000 {
            3
        } else {
            4
        };
        assert(s@.take(i + 1).drop_last() =~= s@.take(i as int));
        total = total + w;
        i = i + 1;
        if total > limit {
            proof {
                lemma_utf8_len_prefix(s@, i as int);
            }
            return true;
        }
    }
    assert(s@.take(n as int) =~= s@);
    false
}


/// `p` occurs somewhere in `s`.
pub open spec fn contains_spec(s: Seq<char>, p: Seq<char>) -> bool {
    exists|i: int| 0 <= i <= s.len() && #[trigger] has_prefix(s.skip(i), p)
}

/// Whether `p` occurs in `s`.
pub fn contains_str(s: &str, p: &str) -> (r: bool)
    ensures
        r == contains_spec(s@, p@),
{
    let n = s.unicode_len();
    let mut i: usize = 0;
    loop
        invariant
            n == s@.len(),
            i <= n,
            forall|j: int| 0 <= j < i ==> !#[trigger] has_prefix(s@.skip(j), p@),
        ensures
            forall|j: int| 0 <= j <= n ==> !#[trigger] has_prefix(s@.skip(j), p@),
        decreases n - i,
    {
        if starts_with_at(s, i, p) {
            return true;
        }
        if i == n {
            break;
        }
        i = i + 1;
    }
    false
}

} // verus!
