//! Request and response shapes of the operations the host shell exposes.
//! The shell deserializes requests into these, calls the library, and
//! serializes the responses; the shapes themselves are plain values.

use vstd::prelude::*;
use crate::types::{Branch, DeletedBranch, DeletedBranchInfo, RestoreBranchResult};

verus! {

#[derive(Debug, Clone)]
pub struct SwitchBranchInput {
    pub path: String,
    pub branch: String,
}

#[derive(Debug, Clone)]
pub struct SwitchBranchOutput {
    pub current_branch: String,
}

#[derive(Debug, Clone)]
pub struct DeleteBranchesInput {
    pub path: String,
    pub branches: Vec<String>,
}

#[derive(Debug, Clone)]
pub struct DeleteBranchesOutput {
    pub deleted_branches: Vec<DeletedBranchInfo>,
}

#[derive(Debug, Clone)]
pub struct IsCommitReachableInput {
    pub path: String,
    pub commit_sha: String,
}

#[derive(Debug, Clone)]
pub struct IsCommitReachableOutput {
    pub is_reachable: bool,
}

#[derive(Debug, Clone)]
pub struct RestoreBranchOutput {
    pub result: RestoreBranchResult,
}

#[derive(Debug, Clone)]
pub struct RestoreBranchesInput {
    pub path: String,
    pub branch_infos: Vec<DeletedBranch>,
}

#[derive(Debug, Clone)]
pub struct RestoreBranchesOutput {
    pub results: Vec<RestoreBranchResult>,
}

#[derive(Debug, Clone)]
pub struct GetRepositoryRootInput {
    pub path: String,
}

#[derive(Debug, Clone)]
pub struct GetRepositoryRootOutput {
    pub root_path: String,
    pub id: Option<String>,
}

#[derive(Debug, Clone)]
pub struct GetRepositoryInput {
    pub path: String,
}

#[derive(Debug, Clone)]
pub struct GetRepositoryOutput {
    pub path: String,
    pub branches: Vec<Branch>,
    pub current_branch: String,
    pub branches_count: u32,
    pub name: String,
    pub id: String,
}

} // verus!
