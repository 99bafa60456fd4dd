//! Payloads of the advisory notifications the host shell emits after
//! operations: which branches changed, and user-facing notices.  Emission
//! itself is the shell's concern; these are plain values.

use vstd::prelude::*;
use crate::types::{Branch, DeletedBranchInfo};

verus! {

#[derive(Debug, Clone)]
pub struct BranchDeletedEvent {
    pub deleted_branches: Vec<DeletedBranchInfo>,
    pub repository_path: String,
}

#[derive(Debug, Clone)]
pub struct BranchRestoredEvent {
    pub restored_branch: Branch,
    pub repository_path: String,
}

#[derive(Debug, Clone)]
pub struct BranchSwitchedEvent {
    pub from_branch: String,
    pub to_branch: String,
    pub repository_path: String,
}

#[derive(Debug, Clone)]
pub struct RepositoryLoadedEvent {
    pub repository_path: String,
    pub repository_name: String,
    pub branches_count: u32,
}

#[derive(Debug, Clone, PartialEq, Eq, Structural)]
pub enum NotificationKind {
    Success,
    Error,
    Warning,
    Info,
}

#[derive(Debug, Clone)]
pub struct NotificationEvent {
    pub title: String,
    pub message: String,
    pub kind: NotificationKind,
    pub duration: Option<u32>,
}

} // verus!
