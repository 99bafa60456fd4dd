//! The restoration engine: recreates deleted branches at recorded commits,
//! resolving name conflicts by the caller-supplied strategy.
//!
//! The decision logic is the pure state machine `spec_plan_restore`; the
//! repository work around it goes through the trusted wrappers.  A
//! restoration never guesses: without an explicit strategy a name collision
//! is reported back for a user decision, and no mutation is performed.

use vstd::prelude::*;
use vstd::string::StringExecFns;
use crate::catalog::{branch_exists, get_branch_info, commit_consistent};
use crate::commits::is_commit_reachable;
use crate::error::{step_error_about, Error};
use crate::gitio;
use crate::types::{Branch, ConflictDetails, ConflictResolution, RestoreBranchInput,
    RestoreBranchResult};

verus! {

/// The terminal action the engine takes for one restoration request.
#[derive(Debug, PartialEq, Eq, Structural)]
pub enum RestoreAction {
    /// The recorded commit does not resolve: fail, mutate nothing.
    RejectCommit,
    /// No name collision (or an explicit rename): create the branch.
    CreateFresh,
    /// Explicit overwrite: delete the existing branch, then create.
    ReplaceExisting,
    /// Explicit skip: report `skipped`, mutate nothing.
    SkipExisting,
    /// Collision without a strategy: report back for a user decision,
    /// mutate nothing.
    AskUser,
}

/// The restoration state machine: what to do given whether the recorded
/// commit resolves, whether the target name already exists, and the
/// caller-supplied conflict strategy.
pub open spec fn spec_plan_restore(
    commit_reachable: bool,
    target_exists: bool,
    resolution: Option<ConflictResolution>,
) -> RestoreAction {
    if !commit_reachable {
        RestoreAction::RejectCommit
    } else if !target_exists {
        RestoreAction::CreateFresh
    } else {
        match resolution {
            Some(ConflictResolution::Overwrite) => RestoreAction::ReplaceExisting,
            Some(ConflictResolution::Rename) => RestoreAction::CreateFresh,
            Some(ConflictResolution::Skip) => RestoreAction::SkipExisting,
            None => RestoreAction::AskUser,
        }
    }
}

pub fn plan_restore(
    commit_reachable: bool,
    target_exists: bool,
    resolution: &Option<ConflictResolution>,
) -> (a: RestoreAction)
    ensures
        a == spec_plan_restore(commit_reachable, target_exists, *resolution),
{
    if !commit_reachable {
        RestoreAction::RejectCommit
    } else if !target_exists {
        RestoreAction::CreateFresh
    } else {
        match resolution {
            Some(ConflictResolution::Overwrite) => RestoreAction::ReplaceExisting,
            Some(ConflictResolution::Rename) => RestoreAction::CreateFresh,
            Some(ConflictResolution::Skip) => RestoreAction::SkipExisting,
            None => RestoreAction::AskUser,
        }
    }
}

/// An unreachable commit is always rejected, whatever the collision state
/// and strategy say, and rejection happens for no other reason.
pub proof fn lemma_unreachable_commit_rejected(
    target_exists: bool,
    resolution: Option<ConflictResolution>,
)
    ensures
        forall|reachable: bool|
            spec_plan_restore(reachable, target_exists, resolution) == RestoreAction::RejectCommit
                <==> !reachable,
{
}

/// A name collision without a supplied strategy is reported for a user
/// decision, never resolved silently; and only a collision without a
/// strategy is.
pub proof fn lemma_conflict_requires_explicit_choice(
    commit_reachable: bool,
    target_exists: bool,
    resolution: Option<ConflictResolution>,
)
    ensures
        spec_plan_restore(commit_reachable, target_exists, resolution) == RestoreAction::AskUser
            <==> commit_reachable && target_exists && resolution is None,
{
}

/// The existing branch is replaced only on an explicit `Overwrite`, and an
/// explicit `Skip` on a collision always ends in the skip outcome.
pub proof fn lemma_explicit_strategies(commit_reachable: bool, target_exists: bool)
    ensures
        forall|resolution: Option<ConflictResolution>|
            spec_plan_restore(commit_reachable, target_exists, resolution)
                == RestoreAction::ReplaceExisting <==> commit_reachable && target_exists
                && resolution == Some(ConflictResolution::Overwrite),
        spec_plan_restore(commit_reachable, target_exists, Some(ConflictResolution::Skip))
            == RestoreAction::SkipExisting <==> commit_reachable && target_exists,
{
}

/// The structural invariants every returned restoration result satisfies:
/// conflict details accompany exactly the ask-the-user outcome, a branch
/// snapshot accompanies exactly success, and the three positive outcomes
/// (success, skipped, user action) are mutually exclusive.
pub open spec fn result_invariant(r: RestoreBranchResult) -> bool {
    &&& r.conflict_details is Some <==> r.requires_user_action
    &&& r.branch is Some <==> r.success
    &&& r.requires_user_action ==> !r.success && !r.skipped
    &&& r.skipped ==> !r.success && !r.requires_user_action
}

/// The outcome reported for an explicit skip: no success, no user action,
/// no snapshot, `skipped` set.
pub fn skip_result(target_name: &str) -> (r: RestoreBranchResult)
    ensures
        result_invariant(r),
        r.success == false,
        r.skipped == true,
        r.requires_user_action == false,
        r.branch_name@ == target_name@,
        r.message@ == "Skipped creation of branch '"@ + target_name@ + "'"@,
        r.conflict_details is None,
        r.branch is None,
{
    let mut m = String::from_str("Skipped creation of branch '");
    m.append(target_name);
    m.append("'");
    RestoreBranchResult {
        success: false,
        branch_name: String::from_str(target_name),
        message: m,
        requires_user_action: false,
        conflict_details: None,
        skipped: true,
        branch: None,
    }
}

/// The outcome reported for a collision without a strategy: the conflict
/// details carry the original and the colliding name, and the caller must
/// choose.
pub fn conflict_result(original_name: &str, target_name: &str) -> (r: RestoreBranchResult)
    ensures
        result_invariant(r),
        r.success == false,
        r.skipped == false,
        r.requires_user_action == true,
        r.branch_name@ == target_name@,
        r.message@ == "Branch '"@ + target_name@
            + "' already exists. Please choose a conflict resolution strategy."@,
        r.conflict_details matches Some(d) && d.original_name@ == original_name@
            && d.conflicting_name@ == target_name@,
        r.branch is None,
{
    let mut m = String::from_str("Branch '");
    m.append(target_name);
    m.append("' already exists. Please choose a conflict resolution strategy.");
    RestoreBranchResult {
        success: false,
        branch_name: String::from_str(target_name),
        message: m,
        requires_user_action: true,
        conflict_details: Some(
            ConflictDetails {
                original_name: String::from_str(original_name),
                conflicting_name: String::from_str(target_name),
            },
        ),
        skipped: false,
        branch: None,
    }
}

/// The outcome reported for a successful creation, carrying the fresh
/// branch snapshot.
pub fn success_result(branch_name: &str, commit_sha: &str, branch: Branch) -> (r:
    RestoreBranchResult)
    ensures
        result_invariant(r),
        r.success == true,
        r.skipped == false,
        r.requires_user_action == false,
        r.branch_name@ == branch_name@,
        r.message@ == "Branch '"@ + branch_name@ + "' has been successfully restored at commit "@
            + commit_sha@,
        r.conflict_details is None,
        r.branch matches Some(b) && b == branch,
{
    let mut m = String::from_str("Branch '");
    m.append(branch_name);
    m.append("' has been successfully restored at commit ");
    m.append(commit_sha);
    RestoreBranchResult {
        success: true,
        branch_name: String::from_str(branch_name),
        message: m,
        requires_user_action: false,
        conflict_details: None,
        skipped: false,
        branch: Some(branch),
    }
}

/// The outcome recorded in a batch for an entry whose restoration failed
/// hard: none of the three positive outcomes, no details, no snapshot, the
/// target name, and the failure's display text as the message.
pub open spec fn restore_failed_post(input: RestoreBranchInput, res: RestoreBranchResult) -> bool {
    &&& result_invariant(res)
    &&& res.branch_name@ == input.target_name@
    &&& !res.success
    &&& !res.skipped
    &&& !res.requires_user_action
    &&& res.conflict_details is None
    &&& res.branch is None
}

/// Builds the per-entry outcome recorded for a hard failure in a batch.
pub fn failed_result(target_name: &str, failure: &Error) -> (r: RestoreBranchResult)
    ensures
        result_invariant(r),
        r.success == false,
        r.skipped == false,
        r.requires_user_action == false,
        r.branch_name@ == target_name@,
        r.message@ == crate::error::display_of(
            failure.message@,
            match failure.description {
                Some(d) => Some(d@),
                None => None,
            },
        ),
        r.conflict_details is None,
        r.branch is None,
{
    RestoreBranchResult {
        success: false,
        branch_name: String::from_str(target_name),
        message: failure.to_display_string(),
        requires_user_action: false,
        conflict_details: None,
        skipped: false,
        branch: None,
    }
}

/// The failure kinds a single restoration can report.
pub open spec fn restore_error_kind(k: Seq<char>) -> bool {
    ||| k == "repository_open_failed"@
    ||| k == "commit_not_found"@
    ||| k == "branch_not_found"@
    ||| k == "delete_branch_failed"@
    ||| k == "invalid_commit_sha"@
    ||| k == "create_branch_failed"@
    ||| k == "commit_peel_failed"@
    ||| k == "head_not_found"@
    ||| k == "head_commit_failed"@
    ||| k == "branch_commit_failed"@
}

/// What a returned `Ok` of a restoration promises, relative to the request:
/// the result names the target, satisfies the structural invariants, and
/// each positive outcome is tied to the state that produces it.
pub open spec fn restore_ok_post(input: RestoreBranchInput, res: RestoreBranchResult) -> bool {
    &&& result_invariant(res)
    &&& res.branch_name@ == input.target_name@
    &&& res.success || res.skipped || res.requires_user_action
    &&& res.skipped ==> input.conflict_resolution == Some(ConflictResolution::Skip)
        && res.message@ == "Skipped creation of branch '"@ + input.target_name@ + "'"@
    &&& res.requires_user_action ==> input.conflict_resolution is None
        && (res.conflict_details matches Some(d) && d.original_name@ == input.original_name@
        && d.conflicting_name@ == input.target_name@)
    &&& res.success ==> res.message@ == "Branch '"@ + input.target_name@
        + "' has been successfully restored at commit "@ + input.commit_sha@
        && (res.branch matches Some(b) && b.name@ == input.target_name@
        && commit_consistent(b.last_commit))
}

/// Creates the branch at the recorded commit and reports the fresh
/// snapshot.
///
/// Fails with `invalid_commit_sha`, `commit_not_found` or
/// `create_branch_failed` when the creation is rejected, and with the
/// snapshot's failure kinds afterwards.
fn create_branch_at_commit(path: &str, branch_name: &str, commit_sha: &str) -> (r: Result<
    RestoreBranchResult,
    Error,
>)
    ensures
        r matches Ok(res) ==> res.success && result_invariant(res) && res.branch_name@
            == branch_name@ && res.message@ == "Branch '"@ + branch_name@
            + "' has been successfully restored at commit "@ + commit_sha@ && (res.branch matches
        Some(b) && b.name@ == branch_name@ && commit_consistent(b.last_commit)),
        r matches Err(e) ==> restore_error_kind(e.kind@),
{
    let repo = match gitio::open_repository(path) {
        Ok(repo) => repo,
        Err(of) => {
            return Err(step_error_about(
                "Failed to open git repository at ",
                path,
                ": ",
                of.message,
                "repository_open_failed",
            ));
        },
    };
    match gitio::create_branch_ref(&repo, branch_name, commit_sha) {
        Ok(()) => (),
        Err(gitio::CreateRefError::Oid(f)) => {
            return Err(step_error_about("Invalid commit SHA '", commit_sha, "': ", f, "invalid_commit_sha"));
        },
        Err(gitio::CreateRefError::Find(f)) => {
            return Err(step_error_about("Failed to find commit '", commit_sha, "': ", f, "commit_not_found"));
        },
        Err(gitio::CreateRefError::Create(f)) => {
            return Err(step_error_about("Failed to create branch '", branch_name, "': ", f, "create_branch_failed"));
        },
    }
    let branch = match get_branch_info(&repo, branch_name) {
        Ok(b) => b,
        Err(e) => return Err(e),
    };
    Ok(success_result(branch_name, commit_sha, branch))
}

/// Performs the planned terminal action of the state machine for one
/// request: the outcome is tied to the action if-and-only-if — skip yields
/// exactly the skip outcome, a collision without a strategy yields exactly
/// the ask-the-user outcome, a rejected commit yields exactly the
/// commit-not-found failure, and a creation (fresh or after an explicit
/// overwrite) is the only way to a success outcome.
pub fn perform_restore_action(
    repo: &git2::Repository,
    path: &str,
    action: RestoreAction,
    branch_info: &RestoreBranchInput,
) -> (r: Result<RestoreBranchResult, Error>)
    ensures
        r matches Ok(res) ==> result_invariant(res) && res.branch_name@
            == branch_info.target_name@ && (res.skipped <==> action == RestoreAction::SkipExisting)
            && (res.requires_user_action <==> action == RestoreAction::AskUser) && (res.success
            <==> action == RestoreAction::CreateFresh || action == RestoreAction::ReplaceExisting),
        action == RestoreAction::SkipExisting ==> (r matches Ok(res) && res.skipped && res.message@
            == "Skipped creation of branch '"@ + branch_info.target_name@ + "'"@),
        action == RestoreAction::AskUser ==> (r matches Ok(res) && res.requires_user_action && (
        res.conflict_details matches Some(d) && d.original_name@ == branch_info.original_name@
            && d.conflicting_name@ == branch_info.target_name@) && res.message@ == "Branch '"@
            + branch_info.target_name@
            + "' already exists. Please choose a conflict resolution strategy."@),
        action == RestoreAction::RejectCommit ==> (r matches Err(e) && e.kind@
            == "commit_not_found"@ && e.message@ == "Commit **"@ + branch_info.commit_sha@
            + "** not found in the repository"@ && (e.description matches Some(d) && d@
            == "The commit '"@ + branch_info.commit_sha@
            + "' does not exist in the repository at "@ + path@)),
        r matches Ok(res) ==> (res.success ==> res.message@ == "Branch '"@
            + branch_info.target_name@ + "' has been successfully restored at commit "@
            + branch_info.commit_sha@ && (res.branch matches Some(b) && b.name@
            == branch_info.target_name@ && commit_consistent(b.last_commit))),
        r matches Err(e) ==> restore_error_kind(e.kind@),
{
    match action {
        RestoreAction::RejectCommit => {
            let mut m = String::from_str("Commit **");
            m.append(branch_info.commit_sha.as_str());
            m.append("** not found in the repository");
            let mut d = String::from_str("The commit '");
            d.append(branch_info.commit_sha.as_str());
            d.append("' does not exist in the repository at ");
            d.append(path);
            Err(Error::new(m, "commit_not_found", Some(d)))
        },
        RestoreAction::CreateFresh => {
            create_branch_at_commit(
                path,
                branch_info.target_name.as_str(),
                branch_info.commit_sha.as_str(),
            )
        },
        RestoreAction::ReplaceExisting => {
            match gitio::delete_branch_ref(repo, branch_info.target_name.as_str()) {
                Ok(()) => (),
                Err(gitio::DeleteRefError::Find(f)) => {
                    return Err(step_error_about("Failed to find branch '", branch_info.target_name.as_str(), "': ", f, "branch_not_found"));
                },
                Err(gitio::DeleteRefError::Delete(f)) => {
                    return Err(step_error_about("Failed to delete branch '", branch_info.target_name.as_str(), "': ", f, "delete_branch_failed"));
                },
            }
            create_branch_at_commit(
                path,
                branch_info.target_name.as_str(),
                branch_info.commit_sha.as_str(),
            )
        },
        RestoreAction::SkipExisting => Ok(skip_result(branch_info.target_name.as_str())),
        RestoreAction::AskUser => Ok(
            conflict_result(
                branch_info.original_name.as_str(),
                branch_info.target_name.as_str(),
            ),
        ),
    }
}

/// Restores one deleted branch at its recorded commit.
///
/// The engine rejects an unreachable commit, creates the branch when the
/// target name is free, and on a collision follows the caller's strategy:
/// overwrite deletes then recreates, rename creates under the pre-chosen
/// name, skip reports `skipped` without mutation, and no strategy reports a
/// conflict for a user decision without mutation.
pub fn restore_deleted_branch(path: &str, branch_info: &RestoreBranchInput) -> (r: Result<
    RestoreBranchResult,
    Error,
>)
    ensures
        r matches Ok(res) ==> restore_ok_post(*branch_info, res),
        r matches Err(e) ==> restore_error_kind(e.kind@),
        branch_info.commit_sha@.len() == 0 ==> r is Err,
{
    let repo = match gitio::open_repository(path) {
        Ok(repo) => repo,
        Err(of) => {
            return Err(step_error_about(
                "Failed to open git repository at ",
                path,
                ": ",
                of.message,
                "repository_open_failed",
            ));
        },
    };
    let reachable = match is_commit_reachable(path, branch_info.commit_sha.as_str()) {
        Ok(b) => b,
        Err(e) => return Err(e),
    };
    let target_exists = match branch_exists(path, branch_info.target_name.as_str()) {
        Ok(b) => b,
        Err(e) => return Err(e),
    };
    let action = plan_restore(reachable, target_exists, &branch_info.conflict_resolution);
    perform_restore_action(&repo, path, action, branch_info)
}

/// Restores a batch of deleted branches, each entry independently and in
/// input order.
///
/// The batch itself never fails: every entry yields its own outcome, and
/// one entry's hard failure does not prevent the remaining entries from
/// being processed.  A hard failure (an unresolvable commit, an unopenable
/// repository, a rejected reference operation) is recorded for its entry as
/// a non-success outcome carrying the failure's display text, with neither
/// the skip flag nor a user-action request set, so the three deliberate
/// outcomes stay distinguishable from it.
pub fn restore_deleted_branches(path: &str, branch_infos: &Vec<RestoreBranchInput>) -> (r: Result<
    Vec<(String, RestoreBranchResult)>,
    Error,
>)
    ensures
        r is Ok,
        r matches Ok(v) ==> v@.len() == branch_infos@.len() && (forall|i: int|
            0 <= i < v@.len() ==> v@[i].0@ == branch_infos@[i].target_name@ && (restore_ok_post(
                branch_infos@[i],
                v@[i].1,
            ) || restore_failed_post(branch_infos@[i], v@[i].1)) && (
            branch_infos@[i].commit_sha@.len() == 0 ==> !v@[i].1.success)),
{
    let mut results: Vec<(String, RestoreBranchResult)> = Vec::new();
    let mut i: usize = 0;
    while i < branch_infos.len()
        invariant
            0 <= i <= branch_infos@.len(),
            results@.len() == i,
            forall|j: int|
                0 <= j < i ==> results@[j].0@ == branch_infos@[j].target_name@ && (restore_ok_post(
                    branch_infos@[j],
                    results@[j].1,
                ) || restore_failed_post(branch_infos@[j], results@[j].1)) && (
                branch_infos@[j].commit_sha@.len() == 0 ==> !results@[j].1.success),
        decreases branch_infos.len() - i,
    {
        let outcome = match restore_deleted_branch(path, &branch_infos[i]) {
            Ok(res) => res,
            Err(e) => failed_result(branch_infos[i].target_name.as_str(), &e),
        };
        results.push((branch_infos[i].target_name.clone(), outcome));
        i = i + 1;
    }
    Ok(results)
}

} // verus!
