//! Verified core of a local-git-branch management library.
//!
//! The library lists local branches with last-commit metadata, switches the
//! checked-out branch, deletes branches with all-or-nothing validation, tests
//! commit reachability, and restores previously deleted branches with
//! caller-supplied conflict handling.  Repository access goes through a small
//! set of trusted wrappers over the `git2` crate; everything layered on top of
//! those wrappers is verified.

pub mod catalog;
pub mod commits;
pub mod error;
pub mod events;
pub mod gitio;
pub mod ipc;
pub mod mutation;
pub mod repository;
pub mod restore;
pub mod strutil;
pub mod types;
