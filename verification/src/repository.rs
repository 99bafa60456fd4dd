//! Repository discovery and summary: validating that a path is a
//! repository, resolving its root path and stable id, and building the full
//! repository summary with the branch listing ordered current-first.

use vstd::prelude::*;
use vstd::string::StringExecFns;
use std::collections::hash_map::DefaultHasher;
use std::hash::Hasher;
use vstd::std_specs::hash::DefaultHasherAdditionalSpecFns;
use crate::catalog::{get_all_branches_with_last_commit, get_current_branch, commit_consistent,
    listing_error_kind};
use crate::error::{step_error_about, Error};
use crate::gitio;
use crate::types::{Branch, GitDirResponse};

verus! {

/// The stable id computed for a root path: the digest of its UTF-8 bytes,
/// terminated as the standard string hashing does.
pub open spec fn spec_calculate_hash(s: Seq<char>) -> u64 {
    DefaultHasher::spec_finish(seq![vstd::utf8::encode_utf8(s).push(0xffu8)])
}

/// Digest of a string, used as a stable repository id.  Equal strings give
/// equal digests within one build of the library.
pub fn calculate_hash(t: &str) -> (r: u64)
    ensures
        r == spec_calculate_hash(t@),
{
    let mut bytes = t.as_bytes_vec();
    bytes.push(0xff);
    let mut hasher = DefaultHasher::new();
    hasher.write(bytes.as_slice());
    proof {
        assert(hasher@ =~= seq![vstd::utf8::encode_utf8(t@).push(0xffu8)]);
    }
    hasher.finish()
}

/// A repository root path with its stable id.  Two responses are the same
/// response exactly when their root paths are equal; the id is derived data
/// and takes no part in equality or hashing.
#[derive(Debug, Clone)]
pub struct RootPathResponse {
    pub root_path: String,
    pub id: Option<u64>,
}

impl PartialEq for RootPathResponse {
    fn eq(&self, other: &Self) -> (r: bool) {
        self.root_path == other.root_path
    }
}

impl vstd::std_specs::cmp::PartialEqSpecImpl for RootPathResponse {
    open spec fn obeys_eq_spec() -> bool {
        true
    }

    open spec fn eq_spec(&self, other: &Self) -> bool {
        self.root_path@ == other.root_path@
    }
}

impl Eq for RootPathResponse {}

impl core::hash::Hash for RootPathResponse {
    #[verifier::external_body]
    fn hash<H: core::hash::Hasher>(&self, state: &mut H) {
        core::hash::Hash::hash(&self.root_path, state);
    }
}

/// Validates an opened repository: its configuration must be readable, and
/// HEAD must resolve unless the repository is bare.
pub fn validate_repository(repo: &git2::Repository, path: &str) -> (r: Result<bool, Error>)
    ensures
        r matches Ok(b) ==> b == true,
        r matches Err(e) ==> e.kind@ == "git_repository_error"@,
{
    match gitio::config_check(repo) {
        Ok(()) => (),
        Err(f) => {
            return Err(step_error_about("Failed to read git repository config at ", path, ": ", f, "git_repository_error"));
        },
    }
    match gitio::head_info(repo) {
        Ok(_) => Ok(true),
        Err(f) => {
            if gitio::is_bare_repo(repo) {
                Ok(true)
            } else {
                Err(step_error_about("Failed to read git repository HEAD at ", path, ": ", f, "git_repository_error"))
            }
        },
    }
}

/// Decides the verdict for a path that could not be opened: a not-found
/// failure means "not a repository" and answers `false`, any other failure
/// is an error carrying its text — if and only if.
pub fn open_failure_verdict(path: &str, failure: gitio::GitFailure) -> (r: Result<bool, Error>)
    ensures
        failure.not_found ==> (r matches Ok(b) && b == false),
        !failure.not_found ==> (r matches Err(e) && e.kind@ == "git_repository_error"@
            && e.message@ == "Failed to open git repository at "@ + path@ + ": "@
            + failure.message@ && (e.description matches Some(d) && d@ == failure.message@)),
{
    if failure.not_found {
        Ok(false)
    } else {
        Err(step_error_about(
            "Failed to open git repository at ",
            path,
            ": ",
            failure.message,
            "git_repository_error",
        ))
    }
}

/// Tests whether the path holds a valid repository.  A path that does not
/// exist, or holds none, yields `false`; a repository that is present but
/// unreadable is an error.
pub fn is_git_repository(path: &str) -> (r: Result<bool, Error>)
    ensures
        r matches Err(e) ==> e.kind@ == "git_repository_error"@,
{
    match gitio::open_repository(path) {
        Ok(repo) => validate_repository(&repo, path),
        Err(of) => open_failure_verdict(path, of),
    }
}

/// Builds the error for a path that is not a git repository.
fn not_a_repository_error(path: &str) -> (e: Error)
    ensures
        e.kind@ == "is_not_git_repository"@,
{
    let shown = match gitio::path_file_name(path) {
        Some(n) => n,
        None => String::from_str(path),
    };
    let mut m = String::from_str("The folder **");
    m.append(shown.as_str());
    m.append("** is not a git repository");
    let mut d = String::from_str("The path **");
    d.append(path);
    d.append("** does not contain a .git directory");
    Error::new(m, "is_not_git_repository", Some(d))
}

/// Resolves the repository's root path and computes its stable id.
///
/// Fails with `is_not_git_repository` when the path holds no repository,
/// with `git_repository_error` when it cannot be read, and with
/// `no_workdir` for a bare repository.
pub fn get_root_path(path: &str) -> (r: Result<RootPathResponse, Error>)
    ensures
        r matches Ok(resp) ==> resp.id matches Some(h) && h == spec_calculate_hash(
            resp.root_path@,
        ),
        r matches Err(e) ==> e.kind@ == "git_repository_error"@ || e.kind@
            == "is_not_git_repository"@ || e.kind@ == "no_workdir"@,
{
    let is_repo = match is_git_repository(path) {
        Ok(b) => b,
        Err(e) => return Err(e),
    };
    if !is_repo {
        return Err(not_a_repository_error(path));
    }
    let repo = match gitio::open_repository(path) {
        Ok(repo) => repo,
        Err(of) => {
            let mut m = String::from_str("Failed to open git repository: ");
            m.append(of.message.as_str());
            return Err(Error::new(m, "git_repository_error", Some(of.message)));
        },
    };
    let rootpath = match gitio::workdir_of(&repo) {
        Some(w) => w,
        None => {
            return Err(Error::new(
                String::from_str("Repository has no working directory"),
                "no_workdir",
                Some(String::from_str("The git repository is bare")),
            ));
        },
    };
    let id = calculate_hash(rootpath.as_str());
    Ok(RootPathResponse { root_path: rootpath, id: Some(id) })
}

/// The branches whose current flag equals `want`, in input order.
pub open spec fn with_current(s: Seq<Branch>, want: bool) -> Seq<Branch>
    decreases s.len(),
{
    if s.len() == 0 {
        Seq::empty()
    } else {
        let rest = with_current(s.drop_last(), want);
        if s.last().current == want {
            rest.push(s.last())
        } else {
            rest
        }
    }
}

proof fn lemma_with_current_all(s: Seq<Branch>, want: bool)
    ensures
        forall|i: int| 0 <= i < with_current(s, want).len() ==> with_current(s, want)[i].current
            == want,
    decreases s.len(),
{
    if s.len() > 0 {
        lemma_with_current_all(s.drop_last(), want);
        let rest = with_current(s.drop_last(), want);
        if s.last().current == want {
            assert(with_current(s, want) == rest.push(s.last()));
            assert forall|i: int|
                0 <= i < with_current(s, want).len() implies with_current(s, want)[i].current
                == want by {
                if i < rest.len() {
                    assert(rest[i].current == want);
                } else {
                    assert(with_current(s, want)[i] == s.last());
                }
            }
        } else {
            assert(with_current(s, want) == rest);
        }
    }
}

/// Reorders a listing so that the current branch comes first, keeping the
/// relative order within each group, as a stable sort on the current flag
/// does.
fn current_first(v: Vec<Branch>) -> (r: Vec<Branch>)
    ensures
        r@ == with_current(v@, true) + with_current(v@, false),
        forall|i: int, j: int| 0 <= i < j < r@.len() && r@[j].current ==> r@[i].current,
{
    let ghost orig = v@;
    let mut v = v;
    let mut cur: Vec<Branch> = Vec::new();
    let mut rest: Vec<Branch> = Vec::new();
    let ghost mut i: int = 0;
    while v.len() > 0
        invariant
            0 <= i <= orig.len(),
            v@ =~= orig.subrange(i, orig.len() as int),
            cur@ == with_current(orig.take(i), true),
            rest@ == with_current(orig.take(i), false),
        decreases v.len(),
    {
        proof {
            assert(orig.take(i + 1).drop_last() =~= orig.take(i));
            assert(orig.take(i + 1).last() == orig[i]);
        }
        let x = v.remove(0);
        assert(x == orig[i]);
        if x.current {
            cur.push(x);
        } else {
            rest.push(x);
        }
        proof {
            i = i + 1;
        }
    }
    proof {
        assert(i == orig.len());
        assert(orig.take(orig.len() as int) =~= orig);
        lemma_with_current_all(orig, true);
        lemma_with_current_all(orig, false);
    }
    let mut out = cur;
    let mut rest = rest;
    out.append(&mut rest);
    out
}

/// Builds the full repository summary: root path, branch listing ordered
/// current-first, current branch name, branch count, and the repository's
/// display name, which also serves as its id.
///
/// Fails with `is_not_git_repository`, the root-resolution kinds, the
/// listing kinds, or `repo_name_failed` when the root path has no final
/// component.
pub fn get_repo_info(path: &str) -> (r: Result<GitDirResponse, Error>)
    ensures
        r matches Ok(g) ==> g.name@ == g.id@ && g.branches@.len() >= 1 && (forall|i: int, j: int|
            0 <= i < j < g.branches@.len() && g.branches@[j].current ==> g.branches@[i].current)
            && (forall|i: int| 0 <= i < g.branches@.len() ==> commit_consistent(
            g.branches@[i].last_commit,
        )),
        r matches Ok(g) ==> g.branches_count == g.branches@.len() as u32 && (g.branches@.len()
            < 0x1_0000_0000 ==> g.branches_count as int == g.branches@.len()),
        r matches Err(e) ==> e.kind@ == "is_not_git_repository"@ || e.kind@
            == "git_repository_error"@ || e.kind@ == "no_workdir"@ || e.kind@ == "repo_name_failed"@
            || listing_error_kind(e.kind@),
{
    let is_repo = match is_git_repository(path) {
        Ok(b) => b,
        Err(e) => return Err(e),
    };
    if !is_repo {
        return Err(not_a_repository_error(path));
    }
    let root = match get_root_path(path) {
        Ok(r) => r,
        Err(e) => return Err(e),
    };
    let root_path = root.root_path;
    let branches = match get_all_branches_with_last_commit(root_path.as_str()) {
        Ok(b) => b,
        Err(e) => return Err(e),
    };
    let ghost listed = branches@;
    let branches = current_first(branches);
    let current = match get_current_branch(root_path.as_str()) {
        Ok(c) => c,
        Err(e) => return Err(e),
    };
    let repo_name = match gitio::path_file_name(root_path.as_str()) {
        Some(n) => n,
        None => {
            return Err(Error::new(
                String::from_str("Failed to get repository name"),
                "repo_name_failed",
                Some(
                    String::from_str(
                        "Could not extract the repository name from the file path",
                    ),
                ),
            ));
        },
    };
    proof {
        lemma_with_current_len(listed);
        lemma_with_current_preserves(listed, true, |b: Branch| commit_consistent(b.last_commit));
        lemma_with_current_preserves(listed, false, |b: Branch| commit_consistent(b.last_commit));
    }
    let branches_count = #[verifier::truncate] (branches.len() as u32);
    Ok(GitDirResponse {
        path: root_path,
        branches,
        current_branch: current,
        branches_count,
        name: repo_name.clone(),
        id: repo_name,
    })
}

/// Every element selected by `with_current` is one of the listing's
/// elements, so a pointwise property of the listing carries over.
proof fn lemma_with_current_preserves(s: Seq<Branch>, want: bool, p: spec_fn(Branch) -> bool)
    requires
        forall|i: int| 0 <= i < s.len() ==> p(s[i]),
    ensures
        forall|i: int| 0 <= i < with_current(s, want).len() ==> p(with_current(s, want)[i]),
    decreases s.len(),
{
    if s.len() > 0 {
        assert(forall|i: int| 0 <= i < s.drop_last().len() ==> p(s.drop_last()[i]));
        lemma_with_current_preserves(s.drop_last(), want, p);
        let rest = with_current(s.drop_last(), want);
        if s.last().current == want {
            assert(with_current(s, want) == rest.push(s.last()));
            assert(p(s.last()));
            assert forall|i: int|
                0 <= i < with_current(s, want).len() implies p(with_current(s, want)[i]) by {
                if i < rest.len() {
                    assert(p(rest[i]));
                } else {
                    assert(with_current(s, want)[i] == s.last());
                }
            }
        } else {
            assert(with_current(s, want) == rest);
        }
    }
}

proof fn lemma_with_current_len(s: Seq<Branch>)
    ensures
        with_current(s, true).len() + with_current(s, false).len() == s.len(),
    decreases s.len(),
{
    if s.len() > 0 {
        lemma_with_current_len(s.drop_last());
    }
}

} // verus!
