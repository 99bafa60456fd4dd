//! Value objects shared across the library: commit and branch snapshots,
//! restoration inputs and results, and the repository summary shape.

use vstd::prelude::*;

verus! {

/// Immutable snapshot of a commit at observation time.
#[derive(Debug, Clone)]
pub struct Commit {
    pub sha: String,
    pub short_sha: String,
    pub date: String,
    pub message: String,
    pub author: String,
    pub email: String,
}

pub ghost struct CommitView {
    pub sha: Seq<char>,
    pub short_sha: Seq<char>,
    pub date: Seq<char>,
    pub message: Seq<char>,
    pub author: Seq<char>,
    pub email: Seq<char>,
}

impl View for Commit {
    type V = CommitView;

    open spec fn view(&self) -> CommitView {
        CommitView {
            sha: self.sha@,
            short_sha: self.short_sha@,
            date: self.date@,
            message: self.message@,
            author: self.author@,
            email: self.email@,
        }
    }
}

/// One local branch with the metadata of its tip commit.
#[derive(Debug, Clone)]
pub struct Branch {
    pub name: String,
    pub fully_merged: bool,
    pub last_commit: Commit,
    pub current: bool,
}

pub ghost struct BranchView {
    pub name: Seq<char>,
    pub fully_merged: bool,
    pub last_commit: CommitView,
    pub current: bool,
}

impl View for Branch {
    type V = BranchView;

    open spec fn view(&self) -> BranchView {
        BranchView {
            name: self.name@,
            fully_merged: self.fully_merged,
            last_commit: self.last_commit@,
            current: self.current,
        }
    }
}

/// Record of one deleted branch: the snapshot taken immediately before the
/// deletion, plus a human-readable confirmation line.
#[derive(Debug, Clone)]
pub struct DeletedBranchInfo {
    pub branch: Branch,
    pub raw_output: String,
}

/// Caller-supplied directive for handling a branch-name collision during
/// restoration.  Absence of a directive means "ask the user".
#[derive(Debug, Clone, Copy, PartialEq, Eq, Structural)]
pub enum ConflictResolution {
    Overwrite,
    Rename,
    Skip,
}

/// One restoration request: recreate `target_name` at `commit_sha`.
/// `target_name` may equal `original_name` or be a pre-chosen rename.
#[derive(Debug, Clone)]
pub struct RestoreBranchInput {
    pub original_name: String,
    pub target_name: String,
    pub commit_sha: String,
    pub conflict_resolution: Option<ConflictResolution>,
}

/// The same shape as [`RestoreBranchInput`], as retained by the caller
/// between a deletion and a later restoration request.
#[derive(Debug, Clone)]
pub struct DeletedBranch {
    pub original_name: String,
    pub target_name: String,
    pub commit_sha: String,
    pub conflict_resolution: Option<ConflictResolution>,
}

impl DeletedBranch {
    /// Repackages the retained record as a restoration request.
    pub fn to_restore_input(&self) -> (r: RestoreBranchInput)
        ensures
            r.original_name@ == self.original_name@,
            r.target_name@ == self.target_name@,
            r.commit_sha@ == self.commit_sha@,
            r.conflict_resolution == self.conflict_resolution,
    {
        RestoreBranchInput {
            original_name: self.original_name.clone(),
            target_name: self.target_name.clone(),
            commit_sha: self.commit_sha.clone(),
            conflict_resolution: self.conflict_resolution,
        }
    }
}

/// Names involved in a restoration conflict that awaits a user decision.
#[derive(Debug, Clone)]
pub struct ConflictDetails {
    pub original_name: String,
    pub conflicting_name: String,
}

/// Structured outcome of one restoration request.
#[derive(Debug, Clone)]
pub struct RestoreBranchResult {
    pub success: bool,
    pub branch_name: String,
    pub message: String,
    pub requires_user_action: bool,
    pub conflict_details: Option<ConflictDetails>,
    pub skipped: bool,
    pub branch: Option<Branch>,
}

/// Summary of a repository: its root path, branch listing, current branch,
/// and display name.
#[derive(Debug, Clone)]
pub struct GitDirResponse {
    pub path: String,
    pub branches: Vec<Branch>,
    pub current_branch: String,
    pub branches_count: u32,
    pub name: String,
    pub id: String,
}

} // verus!
