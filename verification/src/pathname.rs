//! Paths as text: the parent, components and extension that `std::path::Path` finds.
use vstd::prelude::*;

verus! {

/// What `Path::parent` gives for a path, as text.
pub uninterp spec fn path_parent(s: Seq<char>) -> Option<Seq<char>>;

/// What `Path::components` yields for a path, each component as text.
pub uninterp spec fn path_components(s: Seq<char>) -> Seq<Seq<char>>;

/// What `Path::extension` gives for a path, as text.
pub uninterp spec fn path_extension(s: Seq<char>) -> Option<Seq<char>>;

/// Calls `Path::parent` on `s`; the contract names its result.
#[verifier::external_body]
pub fn parent(s: &str) -> (r: Option<String>)
    ensures
        match r {
            Some(p) => path_parent(s@) == Some(p@),
            None => path_parent(s@) is None,
        },
{
    match std::path::Path::new(s).parent() {
        Some(p) => Some(p.to_string_lossy().into_owned()),
        None => None,
    }
}

/// Calls `Path::components` on `s`; the contract names what it yields.
#[verifier::external_body]
pub fn components(s: &str) -> (r: Vec<String>)
    ensures
        r@.map_values(|c: String| c@) == path_components(s@),
{
    let mut out = Vec::new();
    for c in std::path::Path::new(s).components() {
        out.push(c.as_os_str().to_string_lossy().into_owned());
    }
    out
}

/// Calls `Path::extension` on `s`; the contract names its result.
#[verifier::external_body]
pub fn extension(s: &str) -> (r: Option<String>)
    ensures
        match r {
            Some(e) => path_extension(s@) == Some(e@),
            None => path_extension(s@) is None,
        },
{
    match std::path::Path::new(s).extension() {
        Some(e) => Some(e.to_string_lossy().into_owned()),
        None => None,
    }
}

} // verus!
