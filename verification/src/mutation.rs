//! Branch mutation: switching the checked-out branch, and deleting a batch
//! of branches with all-or-nothing validation.

use vstd::prelude::*;
use vstd::string::StringExecFns;
use crate::catalog::{branch_exists, get_branch_info, commit_consistent};
use crate::error::{step_error_about, Error};
use crate::gitio;
use crate::strutil::{join_comma, join_commas};
use crate::types::DeletedBranchInfo;

verus! {

/// The fully-qualified reference name of a local branch.
pub fn branch_refname(branch_name: &str) -> (r: String)
    ensures
        r@ == "refs/heads/"@ + branch_name@,
{
    let mut r = String::from_str("refs/heads/");
    r.append(branch_name);
    r
}

/// Decides the pre-mutation validation from the observed existence answer:
/// the switch proceeds exactly when the branch exists, and a missing branch
/// is rejected with `branch_not_found` before anything is touched.
pub fn require_branch_present(path: &str, branch_name: &str, exists: bool) -> (r: Result<
    (),
    Error,
>)
    ensures
        r is Ok <==> exists,
        !exists ==> (r matches Err(e) && e.kind@ == "branch_not_found"@ && e.message@
            == "Branch **"@ + branch_name@ + "** not found"@ && (e.description matches Some(d)
            && d@ == "The branch '"@ + branch_name@ + "' does not exist in the repository at "@
            + path@)),
{
    if !exists {
        let mut m = String::from_str("Branch **");
        m.append(branch_name);
        m.append("** not found");
        let mut d = String::from_str("The branch '");
        d.append(branch_name);
        d.append("' does not exist in the repository at ");
        d.append(path);
        return Err(Error::new(m, "branch_not_found", Some(d)));
    }
    Ok(())
}

/// Switches HEAD to the named branch and forces a working-tree checkout.
///
/// Returns the new current branch name.  Fails with `branch_not_found` when
/// the branch does not exist, and with `repository_open_failed`,
/// `commit_peel_failed`, `set_head_failed` or `checkout_failed` when the
/// underlying steps fail.
pub fn switch_branch(path: &str, branch_name: &str) -> (r: Result<String, Error>)
    ensures
        r matches Ok(name) ==> name@ == branch_name@,
        r matches Err(e) ==> e.kind@ == "repository_open_failed"@ || e.kind@
            == "commit_peel_failed"@ || e.kind@ == "set_head_failed"@ || e.kind@
            == "checkout_failed"@ || (e.kind@ == "branch_not_found"@ && (e.message@ == "Branch **"@
            + branch_name@ + "** not found"@ || e.message@ == "Failed to find branch '"@
            + branch_name@ + "': "@ + e.description->0@)),
{
    let repo = match gitio::open_repository(path) {
        Ok(repo) => repo,
        Err(of) => {
            return Err(step_error_about(
                "Failed to open git repository at ",
                path,
                ": ",
                of.message,
                "repository_open_failed",
            ));
        },
    };
    let exists = match branch_exists(path, branch_name) {
        Ok(b) => b,
        Err(e) => return Err(e),
    };
    match require_branch_present(path, branch_name, exists) {
        Ok(()) => (),
        Err(e) => return Err(e),
    }
    // The branch must resolve to a commit before HEAD is moved.
    match gitio::branch_tip(&repo, branch_name) {
        Ok(_) => (),
        Err(gitio::TipError::Find(f)) => {
            return Err(step_error_about("Failed to find branch '", branch_name, "': ", f, "branch_not_found"));
        },
        Err(gitio::TipError::Peel(f)) => {
            return Err(step_error_about("Failed to get commit for branch ", branch_name, ": ", f, "commit_peel_failed"));
        },
    }
    let refname = branch_refname(branch_name);
    match gitio::set_head_ref(&repo, refname.as_str()) {
        Ok(()) => (),
        Err(f) => {
            return Err(step_error_about("Failed to set HEAD to branch '", branch_name, "': ", f, "set_head_failed"));
        },
    }
    match gitio::checkout_head_force(&repo) {
        Ok(()) => (),
        Err(f) => {
            return Err(step_error_about("Failed to checkout branch '", branch_name, "': ", f, "checkout_failed"));
        },
    }
    Ok(String::from_str(branch_name))
}

/// The names whose existence flag equals `want`, in input order.
pub open spec fn picked(names: Seq<Seq<char>>, flags: Seq<bool>, want: bool) -> Seq<Seq<char>>
    decreases names.len(),
{
    if names.len() == 0 {
        Seq::empty()
    } else {
        let rest = picked(names.drop_last(), flags.drop_last(), want);
        if flags.last() == want {
            rest.push(names.last())
        } else {
            rest
        }
    }
}

/// The requested batch is rejected exactly when some requested name is
/// missing: the names picked as missing are nonempty iff a flag is false.
pub proof fn lemma_delete_all_or_nothing(names: Seq<Seq<char>>, flags: Seq<bool>)
    requires
        names.len() == flags.len(),
    ensures
        picked(names, flags, false).len() > 0 <==> exists|i: int| 0 <= i < flags.len() && !flags[i],
    decreases names.len(),
{
    if names.len() > 0 {
        lemma_delete_all_or_nothing(names.drop_last(), flags.drop_last());
        if picked(names.drop_last(), flags.drop_last(), false).len() > 0 {
            let i = choose|i: int|
                0 <= i < flags.drop_last().len() && !flags.drop_last()[i];
            assert(!flags[i]);
        }
        if !flags.last() {
            assert(!flags[flags.len() - 1]);
        }
        if exists|i: int| 0 <= i < flags.len() && !flags[i] {
            let i = choose|i: int| 0 <= i < flags.len() && !flags[i];
            if i < flags.len() - 1 {
                assert(!flags.drop_last()[i]);
            }
        }
    }
}

/// When no name is picked as missing, every name is picked as found, in the
/// original order.
proof fn lemma_picked_complete(names: Seq<Seq<char>>, flags: Seq<bool>)
    requires
        names.len() == flags.len(),
        picked(names, flags, false).len() == 0,
    ensures
        picked(names, flags, true) == names,
    decreases names.len(),
{
    if names.len() > 0 {
        assert(flags.last());
        lemma_picked_complete(names.drop_last(), flags.drop_last());
        assert(picked(names, flags, true) =~= names);
    }
}

/// The message reported when a delete batch names missing branches.
pub open spec fn missing_branches_message(found: Seq<Seq<char>>, missing: Seq<Seq<char>>)
    -> Seq<char> {
    let still = if found.len() == 0 {
        "No branches were"@
    } else {
        "The branch(es) **"@ + join_commas(found) + "**"@
    };
    "Branch(es) not found: **"@ + join_commas(missing) + "**. "@ + still + " still exist(s)."@
}

/// Builds the all-or-nothing rejection: the message names the missing
/// branches and the still-existing requested ones, exactly.
pub fn missing_branches_error(path: &str, found: &Vec<String>, missing: &Vec<String>) -> (e: Error)
    ensures
        e.kind@ == "branches_not_found"@,
        e.message@ == missing_branches_message(
            found@.map_values(|s: String| s@),
            missing@.map_values(|s: String| s@),
        ),
        e.description matches Some(d) && d@ == "Cannot find the following branches: "@
            + join_commas(missing@.map_values(|s: String| s@)) + ". Path: "@ + path@,
{
    let missing_joined = join_comma(missing);
    let mut m = String::from_str("Branch(es) not found: **");
    m.append(missing_joined.as_str());
    m.append("**. ");
    let still = if found.len() == 0 {
        String::from_str("No branches were")
    } else {
        let found_joined = join_comma(found);
        let mut t = String::from_str("The branch(es) **");
        t.append(found_joined.as_str());
        t.append("**");
        t
    };
    m.append(still.as_str());
    m.append(" still exist(s).");
    let mut d = String::from_str("Cannot find the following branches: ");
    d.append(missing_joined.as_str());
    d.append(". Path: ");
    d.append(path);
    Error::new(m, "branches_not_found", Some(d))
}

/// Splits the requested names into those whose flag is true (`found`) and
/// those whose flag is false (`missing`), keeping input order.
fn partition_by_flag(names: &Vec<String>, flags: &Vec<bool>) -> (r: (Vec<String>, Vec<String>))
    requires
        names@.len() == flags@.len(),
    ensures
        r.0@.map_values(|s: String| s@) == picked(
            names@.map_values(|s: String| s@),
            flags@,
            true,
        ),
        r.1@.map_values(|s: String| s@) == picked(
            names@.map_values(|s: String| s@),
            flags@,
            false,
        ),
{
    let ghost nv = names@.map_values(|s: String| s@);
    let mut found: Vec<String> = Vec::new();
    let mut missing: Vec<String> = Vec::new();
    let mut i: usize = 0;
    while i < names.len()
        invariant
            0 <= i <= names@.len(),
            names@.len() == flags@.len(),
            nv == names@.map_values(|s: String| s@),
            found@.map_values(|s: String| s@) == picked(nv.take(i as int), flags@.take(i as int), true),
            missing@.map_values(|s: String| s@) == picked(
                nv.take(i as int),
                flags@.take(i as int),
                false,
            ),
        decreases names.len() - i,
    {
        proof {
            assert(nv.take(i + 1).drop_last() =~= nv.take(i as int));
            assert(flags@.take(i + 1).drop_last() =~= flags@.take(i as int));
            assert(nv.take(i + 1).last() == nv[i as int]);
        }
        let ghost of = found@;
        let ghost om = missing@;
        if flags[i] {
            found.push(names[i].clone());
            proof {
                assert(found@.map_values(|s: String| s@) =~= of.map_values(|s: String| s@).push(
                    names@[i as int]@,
                ));
            }
        } else {
            missing.push(names[i].clone());
            proof {
                assert(missing@.map_values(|s: String| s@) =~= om.map_values(|s: String| s@).push(
                    names@[i as int]@,
                ));
            }
        }
        i = i + 1;
    }
    proof {
        assert(nv.take(names@.len() as int) =~= nv);
        assert(flags@.take(names@.len() as int) =~= flags@);
    }
    (found, missing)
}

/// Deletes the named branches, all or nothing.
///
/// The names are first partitioned by existence; when any is missing, the
/// whole batch is rejected with `branches_not_found` and no deletion is
/// performed.  Otherwise each branch is snapshotted and then deleted, and
/// one record per requested name is returned, in input order.
pub fn delete_branches(path: &str, branches_to_delete: &Vec<String>) -> (r: Result<
    Vec<DeletedBranchInfo>,
    Error,
>)
    ensures
        r matches Ok(v) ==> v@.len() == branches_to_delete@.len() && (forall|i: int|
            0 <= i < v@.len() ==> v@[i].branch.name@ == branches_to_delete@[i]@
                && commit_consistent(v@[i].branch.last_commit) && v@[i].raw_output@
                == "Deleted branch "@ + branches_to_delete@[i]@ + " (was "@
                + v@[i].branch.last_commit.short_sha@ + ")"@),
        r matches Err(e) ==> e.kind@ == "repository_open_failed"@ || e.kind@
            == "branch_not_found"@ || e.kind@ == "commit_peel_failed"@ || e.kind@
            == "head_not_found"@ || e.kind@ == "head_commit_failed"@ || e.kind@
            == "branch_commit_failed"@ || e.kind@ == "delete_branch_failed"@ || (e.kind@
            == "branches_not_found"@ && (exists|flags: Seq<bool>|
            #[trigger] flags.len() == branches_to_delete@.len() && picked(
                branches_to_delete@.map_values(|s: String| s@),
                flags,
                false,
            ).len() > 0 && e.message@ == missing_branches_message(
                picked(branches_to_delete@.map_values(|s: String| s@), flags, true),
                picked(branches_to_delete@.map_values(|s: String| s@), flags, false),
            ))),
{
    let repo = match gitio::open_repository(path) {
        Ok(repo) => repo,
        Err(of) => {
            return Err(step_error_about(
                "Failed to open git repository at ",
                path,
                ": ",
                of.message,
                "repository_open_failed",
            ));
        },
    };
    let mut flags: Vec<bool> = Vec::new();
    let mut i: usize = 0;
    while i < branches_to_delete.len()
        invariant
            flags@.len() == i,
            0 <= i <= branches_to_delete@.len(),
        decreases branches_to_delete.len() - i,
    {
        let exists = match branch_exists(path, branches_to_delete[i].as_str()) {
            Ok(b) => b,
            Err(e) => return Err(e),
        };
        flags.push(exists);
        i = i + 1;
    }
    let (found, missing) = partition_by_flag(branches_to_delete, &flags);
    if missing.len() > 0 {
        let e = missing_branches_error(path, &found, &missing);
        proof {
            let nv = branches_to_delete@.map_values(|s: String| s@);
            assert(picked(nv, flags@, false).len() > 0);
            assert(e.message@ == missing_branches_message(
                picked(nv, flags@, true),
                picked(nv, flags@, false),
            ));
        }
        return Err(e);
    }
    proof {
        assert(missing@.map_values(|s: String| s@).len() == 0);
        lemma_picked_complete(branches_to_delete@.map_values(|s: String| s@), flags@);
        assert(found@.map_values(|s: String| s@) =~= branches_to_delete@.map_values(
            |s: String| s@,
        ));
    }
    proof {
        assert(found@.len() == branches_to_delete@.len());
        assert forall|j: int| 0 <= j < found@.len() implies found@[j]@ == branches_to_delete@[j]@ by {
            assert(found@.map_values(|s: String| s@)[j] == found@[j]@);
            assert(branches_to_delete@.map_values(|s: String| s@)[j] == branches_to_delete@[j]@);
        }
    }
    if found.len() == 0 {
        return Ok(Vec::new());
    }
    let mut deleted: Vec<DeletedBranchInfo> = Vec::new();
    let mut k: usize = 0;
    while k < found.len()
        invariant
            0 <= k <= found@.len(),
            found@.len() == branches_to_delete@.len(),
            forall|j: int|
                0 <= j < found@.len() ==> found@[j]@ == branches_to_delete@[j]@,
            deleted@.len() == k,
            forall|j: int|
                0 <= j < k ==> deleted@[j].branch.name@ == found@[j]@ && commit_consistent(
                    deleted@[j].branch.last_commit,
                ) && deleted@[j].raw_output@ == "Deleted branch "@ + found@[j]@ + " (was "@
                    + deleted@[j].branch.last_commit.short_sha@ + ")"@,
        decreases found.len() - k,
    {
        let name = &found[k];
        let info = match get_branch_info(&repo, name.as_str()) {
            Ok(b) => b,
            Err(e) => return Err(e),
        };
        match gitio::delete_branch_ref(&repo, name.as_str()) {
            Ok(()) => (),
            Err(gitio::DeleteRefError::Find(f)) => {
                return Err(step_error_about("Failed to find branch '", name.as_str(), "': ", f, "branch_not_found"));
            },
            Err(gitio::DeleteRefError::Delete(f)) => {
                return Err(step_error_about("Failed to delete branch '", name.as_str(), "': ", f, "delete_branch_failed"));
            },
        }
        let mut raw_output = String::from_str("Deleted branch ");
        raw_output.append(name.as_str());
        raw_output.append(" (was ");
        raw_output.append(info.last_commit.short_sha.as_str());
        raw_output.append(")");
        deleted.push(DeletedBranchInfo { branch: info, raw_output });
        k = k + 1;
    }
    Ok(deleted)
}

} // verus!
