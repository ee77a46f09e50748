//! The rules for adding, removing, updating and renaming Git remotes, checked against
//! the names the repository already has.
use vstd::prelude::*;

use crate::error::MultiGitError;
use crate::text::{concat3, decimal, decimal_spec, owned, str_equal, strings_view};

verus! {

/// Whether `name` is among `names`.
pub fn has_name(names: &Vec<String>, name: &str) -> (r: bool)
    ensures
        r == strings_view(names@).contains(name@),
{
    let mut i: usize = 0;
    while i < names.len()
        invariant
            i <= names@.len(),
            forall|j: int| 0 <= j < i ==> names@[j]@ != name@,
        decreases names@.len() - i,
    {
        if str_equal(names[i].as_str(), name) {
            assert(strings_view(names@)[i as int] == name@);
            return true;
        }
        i = i + 1;
    }
    assert(!strings_view(names@).contains(name@)) by {
        if strings_view(names@).contains(name@) {
            let j = choose|j: int| 0 <= j < names@.len() && strings_view(names@)[j] == name@;
            assert(names@[j]@ != name@);
        }
    }
    false
}

/// A remote may be added under a name not yet taken.
pub fn check_add(names: &Vec<String>, name: &str) -> (r: Result<(), MultiGitError>)
    ensures
        r is Ok <==> !strings_view(names@).contains(name@),
        r matches Err(e) ==> e is Other && e->Other_0@ == "Remote '"@ + name@
            + "' already exists. Use update to change the URL."@,
{
    if has_name(names, name) {
        Err(
            MultiGitError::Other(
                concat3("Remote '", name, "' already exists. Use update to change the URL."),
            ),
        )
    } else {
        Ok(())
    }
}

/// A remote may be removed or updated only when it exists.
pub fn check_exists(names: &Vec<String>, name: &str) -> (r: Result<(), MultiGitError>)
    ensures
        r is Ok <==> strings_view(names@).contains(name@),
        r matches Err(e) ==> e is RemoteNotFound && e->RemoteNotFound_0@ == name@,
{
    if has_name(names, name) {
        Ok(())
    } else {
        Err(MultiGitError::RemoteNotFound(owned(name)))
    }
}

/// A remote may be renamed when it exists and the new name is free.
pub fn check_rename(names: &Vec<String>, old_name: &str, new_name: &str) -> (r: Result<
    (),
    MultiGitError,
>)
    ensures
        !strings_view(names@).contains(old_name@) ==> r is Err && r->Err_0 is RemoteNotFound
            && r->Err_0->RemoteNotFound_0@ == old_name@,
        strings_view(names@).contains(old_name@) && strings_view(names@).contains(new_name@) ==> r
            is Err && r->Err_0 is Other && r->Err_0->Other_0@ == "Remote '"@ + new_name@
            + "' already exists"@,
        strings_view(names@).contains(old_name@) && !strings_view(names@).contains(new_name@)
            ==> r is Ok,
{
    if !has_name(names, old_name) {
        Err(MultiGitError::RemoteNotFound(owned(old_name)))
    } else if has_name(names, new_name) {
        Err(MultiGitError::Other(concat3("Remote '", new_name, "' already exists")))
    } else {
        Ok(())
    }
}

/// The error for a remote that has no URL.
pub fn no_url_error(name: &str) -> (r: MultiGitError)
    ensures
        r is Other && r->Other_0@ == "Remote '"@ + name@ + "' has no URL"@,
{
    MultiGitError::Other(concat3("Remote '", name, "' has no URL"))
}

/// The error of a fetch or push (`operation`) that failed: a timeout when it ran longer
/// than `timeout_secs`, else Git's own `cause`.
pub fn transfer_failure(operation: &str, timed_out: bool, timeout_secs: u64, cause: &str) -> (r:
    MultiGitError)
    ensures
        timed_out ==> r is Other && r->Other_0@ == operation@ + " timed out after "@
            + decimal_spec(timeout_secs as nat) + "s"@,
        !timed_out ==> r is Other && r->Other_0@ == cause@,
{
    if timed_out {
        let secs = decimal(timeout_secs);
        let mut m = concat3(operation, " timed out after ", secs.as_str());
        m.append("s");
        MultiGitError::Other(m)
    } else {
        MultiGitError::Other(owned(cause))
    }
}

} // verus!
