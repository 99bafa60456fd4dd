//! Commit reachability: whether a revision expression resolves to an object
//! in the repository.

use vstd::prelude::*;
use crate::error::Error;
use crate::gitio;

verus! {

/// Tests whether `commit_sha` (a full or short commit id) resolves in the
/// repository at `path`.  This is a guard predicate: it never fails.  An
/// empty id, an unopenable path and an unresolvable id all yield `false`.
pub fn is_commit_reachable(path: &str, commit_sha: &str) -> (r: Result<bool, Error>)
    ensures
        r is Ok,
        commit_sha@.len() == 0 ==> r == Result::<bool, Error>::Ok(false),
{
    if commit_sha.is_empty() {
        return Ok(false);
    }
    let repo = match gitio::open_repository(path) {
        Ok(repo) => repo,
        Err(_) => return Ok(false),
    };
    Ok(gitio::revparse_exists(&repo, commit_sha))
}

} // verus!
