//! Trusted boundary to the `git2` crate, to `chrono`, and to a few path and
//! case-folding routines of the standard library.
//!
//! Every trusted function here is a thin wrapper whose body makes one
//! outside call, or one short chain of accessors on its result, plus
//! argument and result conversion; its contract Verus takes on trust.
//! Results that depend on the repository on disk carry no promise beyond
//! their type; the verified layers above take those results as arguments
//! and are proved for every value of them.  Error values are converted to
//! their display text at this boundary.

use vstd::prelude::*;
use chrono::TimeZone;

verus! {

#[verifier::external_type_specification]
#[verifier::external_body]
pub struct ExRepository(git2::Repository);

/// Plain-value image of a repository error, converted at the trusted
/// boundary: its display text (relying on the `Display` of `git2::Error`),
/// and whether its code was `git2::ErrorCode::NotFound`.
pub struct GitFailure {
    pub message: String,
    pub not_found: bool,
}

/// What HEAD points to: whether it is a branch reference, and its shorthand
/// name when that name is valid UTF-8.
pub struct HeadInfo {
    pub is_branch: bool,
    pub shorthand: Option<String>,
}

/// Plain-value snapshot of a branch tip commit, as read from the repository.
/// Author, email, summary and message are `None` when the repository holds
/// bytes that are not valid UTF-8.
pub struct RawCommitData {
    pub sha: String,
    pub seconds: i64,
    pub offset_minutes: i32,
    pub author: Option<String>,
    pub email: Option<String>,
    pub summary: Option<String>,
    pub message: Option<String>,
}

/// Which step of reading a branch tip failed, with the error's text.
pub enum TipError {
    Find(String),
    Peel(String),
}

/// Which step of resolving the HEAD commit failed, with the error's text.
pub enum HeadTipError {
    Head(String),
    Peel(String),
}

/// Which step of enumerating local branches failed, with the error's text.
pub enum ListError {
    List(String),
    Entry(String),
    Name(String),
}

/// Which step of deleting a branch reference failed, with the error's text.
pub enum DeleteRefError {
    Find(String),
    Delete(String),
}

/// Which step of creating a branch reference failed, with the error's text.
pub enum CreateRefError {
    Oid(String),
    Find(String),
    Create(String),
}

/// Relies on `git2::Repository::open`: opens the repository at a path.
#[verifier::external_body]
pub fn open_repository(path: &str) -> (r: Result<git2::Repository, GitFailure>) {
    match git2::Repository::open(std::path::Path::new(path)) {
        Ok(repo) => Ok(repo),
        Err(e) => Err(GitFailure { message: e.to_string(), not_found: matches!(e.code(), git2::ErrorCode::NotFound) }),
    }
}

/// Relies on `git2::Repository::branches` and `git2::Branch::name`: the names
/// of the local branches, `None` standing for a name that is not valid UTF-8.
#[verifier::external_body]
pub fn local_branch_names(repo: &git2::Repository) -> (r: Result<Vec<Option<String>>, ListError>) {
    let iter = match repo.branches(Some(git2::BranchType::Local)) {
        Ok(i) => i,
        Err(e) => return Err(ListError::List(e.to_string())),
    };
    let mut out: Vec<Option<String>> = Vec::new();
    for entry in iter {
        let (branch, _ty) = match entry { Ok(p) => p, Err(e) => return Err(ListError::Entry(e.to_string())) };
        match branch.name() {
            Ok(n) => out.push(n.map(|s| s.to_string())),
            Err(e) => return Err(ListError::Name(e.to_string())),
        }
    }
    Ok(out)
}

/// Relies on `git2::Repository::head`, `git2::Reference::is_branch` and
/// `git2::Reference::shorthand`: what HEAD points to.
#[verifier::external_body]
pub fn head_info(repo: &git2::Repository) -> (r: Result<HeadInfo, String>) {
    let head = match repo.head() {
        Ok(h) => h,
        Err(e) => return Err(e.to_string()),
    };
    Ok(HeadInfo { is_branch: head.is_branch(), shorthand: head.shorthand().ok().map(|s| s.to_string()) })
}

/// Relies on `git2::Repository::head` and `git2::Reference::peel_to_commit`:
/// the hex id of the commit HEAD resolves to.
#[verifier::external_body]
pub fn head_tip_sha(repo: &git2::Repository) -> (r: Result<String, HeadTipError>) {
    let head = match repo.head() {
        Ok(h) => h,
        Err(e) => return Err(HeadTipError::Head(e.to_string())),
    };
    match head.peel_to_commit() {
        Ok(c) => Ok(c.id().to_string()),
        Err(e) => Err(HeadTipError::Peel(e.to_string())),
    }
}

/// Relies on `git2::Repository::find_branch`, `git2::Reference::peel_to_commit`,
/// `git2::Commit::id` and `git2::Commit::time`: the id and timestamp of a
/// local branch's tip commit.
#[verifier::external_body]
fn branch_tip_commit(repo: &git2::Repository, name: &str) -> (r: Result<(String, i64, i32), TipError>) {
    let branch = match repo.find_branch(name, git2::BranchType::Local) { Ok(b) => b, Err(e) => return Err(TipError::Find(e.to_string())) };
    let commit = match branch.get().peel_to_commit() { Ok(c) => c, Err(e) => return Err(TipError::Peel(e.to_string())) };
    Ok((commit.id().to_string(), commit.time().seconds(), commit.time().offset_minutes()))
}

/// Relies on `git2::Commit::author`, `git2::Signature::name`,
/// `git2::Signature::email`, `git2::Commit::summary` and
/// `git2::Commit::message`: the texts attached to a local branch's tip
/// commit, `None` for bytes that are not valid UTF-8.
#[verifier::external_body]
fn branch_tip_texts(repo: &git2::Repository, name: &str) -> (r: Result<(Option<String>, Option<String>, Option<String>, Option<String>), TipError>) {
    let branch = match repo.find_branch(name, git2::BranchType::Local) { Ok(b) => b, Err(e) => return Err(TipError::Find(e.to_string())) };
    let commit = match branch.get().peel_to_commit() { Ok(c) => c, Err(e) => return Err(TipError::Peel(e.to_string())) };
    let author = commit.author();
    Ok((author.name().ok().map(|s| s.to_string()), author.email().ok().map(|s| s.to_string()),
        commit.summary().ok().flatten().map(|s| s.to_string()), commit.message().ok().map(|s| s.to_string())))
}

/// The tip commit of a local branch, as plain values, read through the two
/// trusted accessors above.
pub fn branch_tip(repo: &git2::Repository, name: &str) -> (r: Result<RawCommitData, TipError>) {
    let (sha, seconds, offset_minutes) = match branch_tip_commit(repo, name) {
        Ok(t) => t,
        Err(e) => return Err(e),
    };
    let (author, email, summary, message) = match branch_tip_texts(repo, name) {
        Ok(t) => t,
        Err(e) => return Err(e),
    };
    Ok(RawCommitData { sha, seconds, offset_minutes, author, email, summary, message })
}

/// Relies on `git2::Repository::graph_descendant_of` and `git2::Oid::from_str`:
/// whether `commit_sha` is a descendant of `ancestor_sha`; any failure counts
/// as `false`, as the callers treat it.
#[verifier::external_body]
pub fn is_descendant_of(repo: &git2::Repository, commit_sha: &str, ancestor_sha: &str) -> (r: bool) {
    let c = match git2::Oid::from_str(commit_sha) {
        Ok(o) => o,
        Err(_) => return false,
    };
    let a = match git2::Oid::from_str(ancestor_sha) {
        Ok(o) => o,
        Err(_) => return false,
    };
    repo.graph_descendant_of(c, a).unwrap_or(false)
}

/// Relies on `git2::Repository::find_branch`: whether a local branch of this
/// name exists in the opened repository.
#[verifier::external_body]
pub fn branch_exists_in(repo: &git2::Repository, name: &str) -> (r: bool) {
    repo.find_branch(name, git2::BranchType::Local).is_ok()
}

/// Relies on `git2::Repository::revparse_single`: whether the revision
/// expression (a full or short commit id) resolves to an object.
#[verifier::external_body]
pub fn revparse_exists(repo: &git2::Repository, spec: &str) -> (r: bool) {
    repo.revparse_single(spec).is_ok()
}

/// Relies on `git2::Repository::set_head`: points HEAD at the given
/// fully-qualified reference name.
#[verifier::external_body]
pub fn set_head_ref(repo: &git2::Repository, refname: &str) -> (r: Result<(), String>) {
    match repo.set_head(refname) {
        Ok(()) => Ok(()),
        Err(e) => Err(e.to_string()),
    }
}

/// Relies on `git2::Repository::checkout_head` with a forced checkout:
/// updates the working tree to HEAD, discarding local changes.
#[verifier::external_body]
pub fn checkout_head_force(repo: &git2::Repository) -> (r: Result<(), String>) {
    match repo.checkout_head(Some(git2::build::CheckoutBuilder::new().force())) {
        Ok(()) => Ok(()),
        Err(e) => Err(e.to_string()),
    }
}

/// Relies on `git2::Repository::find_branch` and `git2::Branch::delete`:
/// deletes the local branch reference of this name.
#[verifier::external_body]
pub fn delete_branch_ref(repo: &git2::Repository, name: &str) -> (r: Result<(), DeleteRefError>) {
    let mut b = match repo.find_branch(name, git2::BranchType::Local) {
        Ok(b) => b,
        Err(e) => return Err(DeleteRefError::Find(e.to_string())),
    };
    match b.delete() {
        Ok(()) => Ok(()),
        Err(e) => Err(DeleteRefError::Delete(e.to_string())),
    }
}

/// Relies on `git2::Oid::from_str`, `git2::Repository::find_commit` and
/// `git2::Repository::branch`: creates a local branch of this name at the
/// commit with this hex id, without forcing over an existing branch.
#[verifier::external_body]
pub fn create_branch_ref(repo: &git2::Repository, name: &str, sha: &str) -> (r: Result<(), CreateRefError>) {
    let oid = match git2::Oid::from_str(sha) {
        Ok(o) => o,
        Err(e) => return Err(CreateRefError::Oid(e.to_string())),
    };
    let commit = match repo.find_commit(oid) {
        Ok(c) => c,
        Err(e) => return Err(CreateRefError::Find(e.to_string())),
    };
    match repo.branch(name, &commit, false) {
        Ok(_) => Ok(()),
        Err(e) => Err(CreateRefError::Create(e.to_string())),
    }
}

/// Relies on `git2::Repository::workdir`: the repository's working-directory
/// path, `None` for a bare repository.
#[verifier::external_body]
pub fn workdir_of(repo: &git2::Repository) -> (r: Option<String>) {
    repo.workdir().map(|p| p.to_string_lossy().to_string())
}

/// Relies on `git2::Repository::config`: whether the repository configuration
/// can be read.
#[verifier::external_body]
pub fn config_check(repo: &git2::Repository) -> (r: Result<(), String>) {
    match repo.config() {
        Ok(_) => Ok(()),
        Err(e) => Err(e.to_string()),
    }
}

/// Relies on `git2::Repository::is_bare`: whether the repository is bare.
#[verifier::external_body]
pub fn is_bare_repo(repo: &git2::Repository) -> (r: bool) {
    repo.is_bare()
}

/// Relies on `std::path::Path::exists`: whether the path exists on disk.
#[verifier::external_body]
pub fn path_exists(path: &str) -> (r: bool) {
    std::path::Path::new(path).exists()
}

/// Relies on `std::path::Path::file_name`: the final component of the path,
/// `None` when the path has none (for example a root or a `..` ending).
#[verifier::external_body]
pub fn path_file_name(path: &str) -> (r: Option<String>) {
    std::path::Path::new(path).file_name().map(|n| n.to_string_lossy().to_string())
}

/// The Unicode lowercasing of a character sequence, as `str::to_lowercase`
/// computes it.  The result is a function of the characters alone.
pub uninterp spec fn lower_of(s: Seq<char>) -> Seq<char>;

/// Relies on `str::to_lowercase`: the result depends on the characters alone.
#[verifier::external_body]
pub fn lowercase(s: &str) -> (r: String)
    ensures
        r@ == lower_of(s@),
{
    s.to_lowercase()
}

/// Whether `chrono` can represent a timestamp of this many seconds since
/// the epoch.  The answer is a function of the seconds alone.
pub uninterp spec fn timestamp_renderable(seconds: int) -> bool;

/// Relies on `chrono::DateTime::from_timestamp`: whether the timestamp is
/// representable; the documentation makes this a pure function of the
/// seconds, `None` exactly on an out-of-range value.
#[verifier::external_body]
pub fn timestamp_in_range(seconds: i64) -> (r: bool)
    ensures
        r == timestamp_renderable(seconds as int),
{
    chrono::DateTime::from_timestamp(seconds, 0).is_some()
}

/// The date line `chrono` renders with the pattern `%a %b %e %T %Y %z` for
/// a representable timestamp at an in-range offset.  The result is a
/// function of the two arguments alone: the pattern uses chrono's fixed
/// English tables, no locale and no time-zone database.
pub uninterp spec fn date_render_of(seconds: int, offset_minutes: int) -> Seq<char>;

/// Relies on `chrono::FixedOffset::east_opt` (defined for offsets strictly
/// within one day), `chrono::DateTime::from_timestamp` (defined for a
/// representable timestamp) and `chrono::DateTime::format`: renders the
/// timestamp in the given offset.  The preconditions admit exactly the
/// inputs on which the two constructors are documented to succeed, the
/// epoch among them, so neither `unwrap` can panic.
#[verifier::external_body]
fn render_date(seconds: i64, offset_minutes: i32) -> (r: String)
    requires
        seconds == 0 || timestamp_renderable(seconds as int),
        -1440 < offset_minutes < 1440,
    ensures
        r@ == date_render_of(seconds as int, offset_minutes as int),
{
    let offset = chrono::FixedOffset::east_opt(offset_minutes * 60).unwrap();
    let dt = chrono::DateTime::from_timestamp(seconds, 0).unwrap().with_timezone(&offset);
    dt.format("%a %b %e %T %Y %z").to_string()
}

/// The date line reported for a commit time: the recorded offset when it is
/// within one day of UTC and UTC otherwise, and the rendered timestamp when
/// it is representable and the epoch otherwise.
pub open spec fn spec_format_commit_date(seconds: int, offset_minutes: int) -> Seq<char> {
    let eff: int = if -1440 < offset_minutes < 1440 {
        offset_minutes
    } else {
        0
    };
    if timestamp_renderable(seconds) {
        date_render_of(seconds, eff)
    } else {
        date_render_of(0, 0)
    }
}

/// Renders a commit time for display.  The fallback decisions — an
/// out-of-range offset is treated as UTC, an unrepresentable timestamp as
/// the epoch — are made here, in verified code; only the bare rendering is
/// trusted.
pub fn format_commit_date(seconds: i64, offset_minutes: i32) -> (r: String)
    ensures
        r@ == spec_format_commit_date(seconds as int, offset_minutes as int),
{
    let eff: i32 = if -1440 < offset_minutes && offset_minutes < 1440 {
        offset_minutes
    } else {
        0
    };
    if timestamp_in_range(seconds) {
        render_date(seconds, eff)
    } else {
        render_date(0, 0)
    }
}

} // verus!
