//! Names that commands derive or accept: repository names typed by the user, and the
//! directory and mirror URLs that a clone uses.
use vstd::prelude::*;

use crate::text::{
    char_alphanumeric, concat3, is_alphanumeric, rfind_char, trim_end_matches,
    trim_end_matches_spec, utf8_len, utf8_len_exceeds,
};

verus! {

/// A character allowed inside a repository name.
pub open spec fn name_char(c: char) -> bool {
    char_alphanumeric(c) || c == '-' || c == '_' || c == '.'
}

/// A valid repository name: 1 to 100 bytes of letters, digits, `-`, `_` and `.`,
/// starting and ending with a letter or digit.
pub open spec fn valid_repo_name(name: Seq<char>) -> bool {
    &&& name.len() > 0
    &&& utf8_len(name) <= 100
    &&& char_alphanumeric(name[0])
    &&& char_alphanumeric(name.last())
    &&& forall|i: int| 0 <= i < name.len() ==> name_char(#[trigger] name[i])
}

/// Whether `name` is a valid repository name.
pub fn is_valid_repo_name(name: &str) -> (r: bool)
    ensures
        r == valid_repo_name(name@),
{
    let n = name.unicode_len();
    if n == 0 || utf8_len_exceeds(name, 100) {
        return false;
    }
    if !is_alphanumeric(name.get_char(0)) || !is_alphanumeric(name.get_char(n - 1)) {
        return false;
    }
    let mut i: usize = 0;
    while i < n
        invariant
            n == name@.len(),
            i <= n,
            forall|j: int| 0 <= j < i ==> name_char(#[trigger] name@[j]),
        decreases n - i,
    {
        let c = name.get_char(i);
        if !(is_alphanumeric(c) || c == '-' || c == '_' || c == '.') {
            assert(!name_char(name@[i as int]));
            return false;
        }
        i = i + 1;
    }
    true
}

/// The text after the last `/` of `s` (all of `s` when it has none).
pub open spec fn last_segment(s: Seq<char>) -> Seq<char> {
    if exists|i: int| 0 <= i < s.len() && s[i] == '/' {
        let i = choose|i: int|
            0 <= i < s.len() && s[i] == '/' && forall|j: int| i < j < s.len() ==> s[j] != '/';
        s.skip(i + 1)
    } else {
        s
    }
}

/// The directory a clone of `url` goes to: the URL's last path segment without `.git`.
pub open spec fn clone_dir_spec(url: Seq<char>) -> Seq<char> {
    last_segment(trim_end_matches_spec(url, ".git"@))
}

/// The directory a clone of `url` goes to.
pub fn extract_repo_name(url: &str) -> (r: String)
    ensures
        r@ == clone_dir_spec(url@),
{
    let t = trim_end_matches(url, ".git");
    let n = t.unicode_len();
    match rfind_char(t, '/') {
        Some(i) => {
            assert(exists|k: int| 0 <= k < t@.len() && t@[k] == '/') by {
                assert(t@[i as int] == '/');
            }
            proof {
                let k = choose|k: int|
                    0 <= k < t@.len() && t@[k] == '/' && forall|j: int| k < j < t@.len() ==> t@[j]
                        != '/';
                if k < i {
                    assert(t@[i as int] != '/');
                }
                if k > i {
                    assert(t@[k] != '/');
                }
                assert(k == i);
            }
            let piece = t.substring_char(i + 1, n);
            assert(piece@ =~= t@.skip(i + 1));
            crate::text::owned(piece)
        },
        None => crate::text::owned(t),
    }
}

/// The URL of mirror `mirror_name` for repository `repo_name`:
/// `https://<mirror>.com/user/<repo>.git`.
pub fn mirror_url(mirror_name: &str, repo_name: &str) -> (r: String)
    ensures
        r@ == "https://"@ + mirror_name@ + ".com/user/"@ + repo_name@ + ".git"@,
{
    let mut r = concat3("https://", mirror_name, ".com/user/");
    r.append(repo_name);
    r.append(".git");
    r
}

} // verus!
