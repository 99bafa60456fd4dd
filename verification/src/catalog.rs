//! The branch catalog: existence and current-branch queries, the
//! merged-into-HEAD flag, per-branch snapshots, and the full listing of
//! local branches sorted by case-insensitive name.

use vstd::prelude::*;
use vstd::multiset::Multiset;
use vstd::string::StringExecFns;
use crate::error::{step_error, step_error_about, Error};
use crate::gitio;
use crate::gitio::lower_of;
use crate::strutil::{short_sha_of, first_line_of, lex_le, short_sha, first_line, str_lex_le,
    lemma_lex_le_total, lemma_lex_le_trans, lemma_lex_le_refl, contains_seq, contains_sub,
    lemma_perm_preserves_pointwise};
use crate::types::{Branch, Commit};

verus! {

/// Tests whether a local branch of this name exists.  This is a guard
/// predicate: it never fails.  A path that cannot be opened as a repository
/// yields `false`.
pub fn branch_exists(path: &str, branch_name: &str) -> (r: Result<bool, Error>)
    ensures
        r is Ok,
{
    let repo = match gitio::open_repository(path) {
        Ok(repo) => repo,
        Err(_) => return Ok(false),
    };
    Ok(gitio::branch_exists_in(&repo, branch_name))
}

/// The shorthand name of the branch HEAD points to.
///
/// Fails with `repository_open_failed` when the path cannot be opened, with
/// `head_not_found` when HEAD cannot be read, with `detached_head` when HEAD
/// is not a branch reference, and with `invalid_branch_name` when the name
/// is not valid UTF-8.
pub fn get_current_branch(path: &str) -> (r: Result<String, Error>)
    ensures
        r matches Err(e) ==> e.kind@ == "repository_open_failed"@ || e.kind@ == "head_not_found"@
            || e.kind@ == "detached_head"@ || e.kind@ == "invalid_branch_name"@,
{
    let repo = match gitio::open_repository(path) {
        Ok(repo) => repo,
        Err(of) => {
            return Err(step_error_about(
                "Failed to open git repository at ",
                path,
                ": ",
                of.message,
                "repository_open_failed",
            ));
        },
    };
    let head = match gitio::head_info(&repo) {
        Ok(h) => h,
        Err(f) => {
            return Err(step_error("Failed to get HEAD: ", f, "head_not_found"));
        },
    };
    current_branch_from_head(path, head)
}

/// A branch counts as fully merged when its tip commit is the HEAD commit
/// itself, or an ancestor of it.
pub open spec fn spec_merged(head_sha: Seq<char>, tip_sha: Seq<char>, descendant: bool) -> bool {
    head_sha == tip_sha || descendant
}

/// Combines the observed commit ids and ancestry answer into the merged
/// flag.  The branch at the HEAD commit is merged whatever the ancestry
/// answer says.
pub fn merged_from(head_sha: &String, tip_sha: &String, descendant: bool) -> (r: bool)
    ensures
        r == spec_merged(head_sha@, tip_sha@, descendant),
{
    if *head_sha == *tip_sha {
        true
    } else {
        descendant
    }
}

/// The branch whose tip is the HEAD commit is merged by definition,
/// independent of the ancestry answer.
pub proof fn lemma_merged_by_definition(sha: Seq<char>, descendant: bool)
    ensures
        spec_merged(sha, sha, descendant),
{
}

/// Whether the named branch is fully merged into HEAD.
///
/// Fails with `head_not_found` or `head_commit_failed` when HEAD cannot be
/// resolved to a commit, and with `branch_not_found` or
/// `branch_commit_failed` when the branch cannot.
pub fn is_branch_merged(repo: &git2::Repository, branch_name: &str) -> (r: Result<bool, Error>)
    ensures
        r matches Err(e) ==> e.kind@ == "head_not_found"@ || e.kind@ == "head_commit_failed"@
            || e.kind@ == "branch_not_found"@ || e.kind@ == "branch_commit_failed"@,
{
    let head_sha = match gitio::head_tip_sha(repo) {
        Ok(s) => s,
        Err(gitio::HeadTipError::Head(f)) => {
            return Err(step_error("Failed to get HEAD: ", f, "head_not_found"));
        },
        Err(gitio::HeadTipError::Peel(f)) => {
            return Err(step_error("Failed to get HEAD commit: ", f, "head_commit_failed"));
        },
    };
    let raw = match gitio::branch_tip(repo, branch_name) {
        Ok(raw) => raw,
        Err(gitio::TipError::Find(f)) => {
            return Err(step_error_about("Failed to find branch '", branch_name, "': ", f, "branch_not_found"));
        },
        Err(gitio::TipError::Peel(f)) => {
            return Err(step_error("Failed to get branch commit: ", f, "branch_commit_failed"));
        },
    };
    if merged_from(&head_sha, &raw.sha, false) {
        return Ok(true);
    }
    let descendant = gitio::is_descendant_of(repo, head_sha.as_str(), raw.sha.as_str());
    Ok(merged_from(&head_sha, &raw.sha, descendant))
}

/// A commit snapshot is internally consistent when its short id is the
/// seven-character prefix of its id.
pub open spec fn commit_consistent(c: Commit) -> bool {
    c.short_sha@ == short_sha_of(c.sha@)
}

/// The characters of an optional text, the empty sequence standing for an
/// absent one.
pub open spec fn opt_text(o: Option<String>) -> Seq<char> {
    match o {
        Some(s) => s@,
        None => Seq::empty(),
    }
}

/// Builds the commit snapshot for observed tip data: every field is fixed
/// by the observation.  The message is the commit summary when
/// `use_summary` holds, and the first line of the full message otherwise.
pub fn commit_from_raw(raw: gitio::RawCommitData, use_summary: bool) -> (c: Commit)
    ensures
        c.sha@ == raw.sha@,
        c.short_sha@ == short_sha_of(raw.sha@),
        c.date@ == gitio::spec_format_commit_date(raw.seconds as int, raw.offset_minutes as int),
        c.message@ == if use_summary {
            opt_text(raw.summary)
        } else {
            first_line_of(opt_text(raw.message))
        },
        c.author@ == opt_text(raw.author),
        c.email@ == opt_text(raw.email),
{
    let date = gitio::format_commit_date(raw.seconds, raw.offset_minutes);
    let short = short_sha(raw.sha.as_str());
    let message = if use_summary {
        match raw.summary {
            Some(s) => s,
            None => String::new(),
        }
    } else {
        let full = match raw.message {
            Some(s) => s,
            None => String::new(),
        };
        first_line(full.as_str())
    };
    let author = match raw.author {
        Some(s) => s,
        None => String::new(),
    };
    let email = match raw.email {
        Some(s) => s,
        None => String::new(),
    };
    Commit { sha: raw.sha, short_sha: short, date, message, author, email }
}

/// Builds one listing entry: the branch name, the two flags, and the tip
/// snapshot with the summary as its message.
pub fn listing_branch(name: &String, raw: gitio::RawCommitData, fully_merged: bool, current: bool)
    -> (b: Branch)
    ensures
        b.name@ == name@,
        b.fully_merged == fully_merged,
        b.current == current,
        b.last_commit.sha@ == raw.sha@,
        b.last_commit.short_sha@ == short_sha_of(raw.sha@),
        b.last_commit.date@ == gitio::spec_format_commit_date(
            raw.seconds as int,
            raw.offset_minutes as int,
        ),
        b.last_commit.message@ == opt_text(raw.summary),
        b.last_commit.author@ == opt_text(raw.author),
        b.last_commit.email@ == opt_text(raw.email),
{
    Branch { name: name.clone(), fully_merged, current, last_commit: commit_from_raw(raw, true) }
}

/// Builds one per-branch snapshot: the branch name, the two flags, and the
/// tip snapshot with the first line of the full message as its message.
pub fn snapshot_branch(branch_name: &str, raw: gitio::RawCommitData, fully_merged: bool,
    current: bool) -> (b: Branch)
    ensures
        b.name@ == branch_name@,
        b.fully_merged == fully_merged,
        b.current == current,
        b.last_commit.sha@ == raw.sha@,
        b.last_commit.short_sha@ == short_sha_of(raw.sha@),
        b.last_commit.date@ == gitio::spec_format_commit_date(
            raw.seconds as int,
            raw.offset_minutes as int,
        ),
        b.last_commit.message@ == first_line_of(opt_text(raw.message)),
        b.last_commit.author@ == opt_text(raw.author),
        b.last_commit.email@ == opt_text(raw.email),
{
    Branch {
        name: String::from_str(branch_name),
        fully_merged,
        current,
        last_commit: commit_from_raw(raw, false),
    }
}

/// Whether the observed HEAD names this branch: HEAD is a branch reference
/// whose shorthand equals the name.
pub fn head_names_branch(head: &gitio::HeadInfo, branch_name: &str) -> (r: bool)
    ensures
        r == (head.is_branch && (head.shorthand matches Some(n) && n@ == branch_name@)),
{
    head.is_branch && match &head.shorthand {
        Some(n) => {
            let name_string = String::from_str(branch_name);
            *n == name_string
        },
        None => false,
    }
}

/// Decides the current-branch answer from the observed HEAD: the shorthand
/// when HEAD is a branch reference with a readable name, `detached_head`
/// when it is not a branch reference, and `invalid_branch_name` when the
/// name is unreadable — if and only if.
pub fn current_branch_from_head(path: &str, head: gitio::HeadInfo) -> (r: Result<String, Error>)
    ensures
        r is Ok <==> head.is_branch && head.shorthand is Some,
        head.is_branch ==> (head.shorthand matches Some(n) ==> (r matches Ok(m) && m@ == n@)),
        !head.is_branch ==> (r matches Err(e) && e.kind@ == "detached_head"@ && e.message@
            == "HEAD is not pointing to a branch in path "@ + path@ && (e.description matches Some(
            d,
        ) && d@ == "Repository is in detached HEAD state"@)),
        head.is_branch && head.shorthand is None ==> (r matches Err(e) && e.kind@
            == "invalid_branch_name"@ && e.message@ == "Failed to get branch name in path "@ + path@
            && (e.description matches Some(d) && d@ == "Branch name contains invalid UTF-8"@)),
{
    if !head.is_branch {
        let mut m = String::from_str("HEAD is not pointing to a branch in path ");
        m.append(path);
        return Err(Error::new(
            m,
            "detached_head",
            Some(String::from_str("Repository is in detached HEAD state")),
        ));
    }
    match head.shorthand {
        Some(name) => Ok(name),
        None => {
            let mut m = String::from_str("Failed to get branch name in path ");
            m.append(path);
            Err(Error::new(
                m,
                "invalid_branch_name",
                Some(String::from_str("Branch name contains invalid UTF-8")),
            ))
        },
    }
}

/// Snapshot of one branch: name, merged flag, current flag, and the tip
/// commit with the first line of its message.
///
/// Fails with `branch_not_found` or `commit_peel_failed` when the branch or
/// its commit cannot be read, and with the failure kinds of the merged and
/// HEAD queries.
pub fn get_branch_info(repo: &git2::Repository, branch_name: &str) -> (r: Result<Branch, Error>)
    ensures
        r matches Ok(b) ==> b.name@ == branch_name@ && commit_consistent(b.last_commit),
        r matches Err(e) ==> e.kind@ == "branch_not_found"@ || e.kind@ == "commit_peel_failed"@
            || e.kind@ == "head_not_found"@ || e.kind@ == "head_commit_failed"@
            || e.kind@ == "branch_commit_failed"@,
{
    let raw = match gitio::branch_tip(repo, branch_name) {
        Ok(raw) => raw,
        Err(gitio::TipError::Find(f)) => {
            return Err(step_error_about("Failed to find branch '", branch_name, "': ", f, "branch_not_found"));
        },
        Err(gitio::TipError::Peel(f)) => {
            return Err(step_error_about("Failed to get commit for branch ", branch_name, ": ", f, "commit_peel_failed"));
        },
    };
    let merged = match is_branch_merged(repo, branch_name) {
        Ok(m) => m,
        Err(e) => return Err(e),
    };
    let head = match gitio::head_info(repo) {
        Ok(h) => h,
        Err(f) => {
            return Err(step_error("Failed to get HEAD: ", f, "head_not_found"));
        },
    };
    let current = head_names_branch(&head, branch_name);
    Ok(snapshot_branch(branch_name, raw, merged, current))
}

/// Listing order: case-insensitive comparison of branch names, lowercasing
/// as the case-folding routine does and comparing code points.
pub open spec fn branch_le(a: Branch, b: Branch) -> bool {
    lex_le(lower_of(a.name@), lower_of(b.name@))
}

fn branch_le_exec(a: &Branch, b: &Branch) -> (r: bool)
    ensures
        r == branch_le(*a, *b),
{
    let la = gitio::lowercase(a.name.as_str());
    let lb = gitio::lowercase(b.name.as_str());
    str_lex_le(la.as_str(), lb.as_str())
}

/// Where a branch belongs among already-sorted entries: after every entry
/// that compares less-or-equal, so entries with tying names keep their
/// input order.
pub open spec fn stable_insert(s: Seq<Branch>, x: Branch) -> Seq<Branch>
    decreases s.len(),
{
    if s.len() == 0 {
        seq![x]
    } else if branch_le(s[0], x) {
        seq![s[0]] + stable_insert(s.drop_first(), x)
    } else {
        seq![x] + s
    }
}

/// The listing order as a function: the entries inserted stably, one after
/// the other, in input order.
pub open spec fn sorted_listing(s: Seq<Branch>) -> Seq<Branch>
    decreases s.len(),
{
    if s.len() == 0 {
        Seq::empty()
    } else {
        stable_insert(sorted_listing(s.drop_last()), s.last())
    }
}

proof fn lemma_stable_insert_at(s: Seq<Branch>, x: Branch, p: int)
    requires
        0 <= p <= s.len(),
        forall|q: int| 0 <= q < p ==> branch_le(s[q], x),
        p < s.len() ==> !branch_le(s[p], x),
    ensures
        stable_insert(s, x) =~= s.insert(p, x),
    decreases p,
{
    if p == 0 {
        if s.len() == 0 {
            assert(stable_insert(s, x) =~= s.insert(0, x));
        } else {
            assert(!branch_le(s[0], x));
            assert(stable_insert(s, x) =~= s.insert(0, x));
        }
    } else {
        assert(branch_le(s[0], x));
        let t = s.drop_first();
        assert(forall|q: int| 0 <= q < p - 1 ==> t[q] == s[q + 1] && branch_le(t[q], x));
        assert(p - 1 < t.len() ==> t[p - 1] == s[p]);
        lemma_stable_insert_at(t, x, p - 1);
        assert(stable_insert(s, x) =~= seq![s[0]] + t.insert(p - 1, x));
        assert(seq![s[0]] + t.insert(p - 1, x) =~= s.insert(p, x));
    }
}

proof fn lemma_stable_insert_multiset(s: Seq<Branch>, x: Branch)
    ensures
        stable_insert(s, x).to_multiset() =~= s.to_multiset().insert(x),
    decreases s.len(),
{
    broadcast use vstd::seq_lib::group_to_multiset_ensures;
    broadcast use vstd::multiset::group_multiset_axioms;

    if s.len() == 0 {
        assert(stable_insert(s, x) =~= s.push(x));
    } else if branch_le(s[0], x) {
        lemma_stable_insert_multiset(s.drop_first(), x);
        assert(stable_insert(s, x) =~= stable_insert(s.drop_first(), x).insert(0, s[0]));
        vstd::seq_lib::to_multiset_insert(stable_insert(s.drop_first(), x), 0, s[0]);
        assert(s =~= s.drop_first().insert(0, s[0]));
        vstd::seq_lib::to_multiset_insert(s.drop_first(), 0, s[0]);
    } else {
        assert(stable_insert(s, x) =~= s.insert(0, x));
        vstd::seq_lib::to_multiset_insert(s, 0, x);
    }
}

/// Sorts branches by case-insensitive name, as the exact function
/// `sorted_listing`: entries are inserted stably in input order, so the
/// output is a sorted permutation of the input in which tying names keep
/// their input order, and two equal inputs sort to equal outputs.
pub fn sort_branches(v: Vec<Branch>) -> (r: Vec<Branch>)
    ensures
        r@ == sorted_listing(v@),
        r@.to_multiset() == v@.to_multiset(),
        forall|i: int, j: int| 0 <= i < j < r@.len() ==> branch_le(r@[i], r@[j]),
{
    broadcast use vstd::seq_lib::group_to_multiset_ensures;

    let ghost orig = v@;
    let mut rest = v;
    let mut out: Vec<Branch> = Vec::new();
    let ghost mut done: int = 0;
    while rest.len() > 0
        invariant
            0 <= done <= orig.len(),
            rest@ =~= orig.subrange(done, orig.len() as int),
            out@ == sorted_listing(orig.take(done)),
            out@.to_multiset().add(rest@.to_multiset()) =~= orig.to_multiset(),
            forall|i: int, j: int| 0 <= i < j < out@.len() ==> branch_le(out@[i], out@[j]),
        decreases rest.len(),
    {
        let ghost old_rest = rest@;
        let ghost old_out = out@;
        let x = rest.remove(0);
        assert(x == orig[done]);
        let mut p: usize = 0;
        while p < out.len() && branch_le_exec(&out[p], &x)
            invariant
                0 <= p <= out@.len(),
                forall|q: int| 0 <= q < p ==> branch_le(out@[q], x),
            decreases out.len() - p,
        {
            p = p + 1;
        }
        let ghost before = out@;
        out.insert(p, x);
        proof {
            lemma_stable_insert_at(before, x, p as int);
            assert(out@ =~= stable_insert(before, x));
            assert(orig.take(done + 1).drop_last() =~= orig.take(done));
            assert(orig.take(done + 1).last() == orig[done]);
            assert(out@ == sorted_listing(orig.take(done + 1)));
            lemma_stable_insert_multiset(before, x);
            broadcast use vstd::multiset::group_multiset_axioms;

            vstd::seq_lib::to_multiset_remove(old_rest, 0);
            vstd::seq_lib::to_multiset_contains(old_rest, x);
            assert(old_rest.contains(x));
            assert(out@.to_multiset() =~= before.to_multiset().insert(x));
            assert(rest@.to_multiset() =~= old_rest.to_multiset().remove(x));
            assert(before == old_out);
            assert(out@.to_multiset().add(rest@.to_multiset()) =~= orig.to_multiset());
            assert forall|i: int, j: int|
                0 <= i < j < out@.len() implies branch_le(out@[i], out@[j]) by {
                if j < p as int {
                    assert(out@[i] == before[i] && out@[j] == before[j]);
                } else if i < p as int && j == p as int {
                    assert(out@[i] == before[i]);
                } else if i < p as int && j > p as int {
                    assert(out@[i] == before[i] && out@[j] == before[j - 1]);
                } else if i == p as int {
                    // x stands before the first entry that does not precede
                    // it; totality puts x at or before every later entry.
                    assert(out@[j] == before[j - 1]);
                    assert(!branch_le(before[p as int], x));
                    lemma_lex_le_total(lower_of(before[p as int].name@), lower_of(x.name@));
                    if j - 1 > p as int {
                        assert(branch_le(before[p as int], before[j - 1]));
                        lemma_lex_le_trans(
                            lower_of(x.name@),
                            lower_of(before[p as int].name@),
                            lower_of(before[j - 1].name@),
                        );
                    }
                } else {
                    assert(out@[i] == before[i - 1] && out@[j] == before[j - 1]);
                }
            }
            done = done + 1;
        }
    }
    proof {
        assert(orig.take(orig.len() as int) =~= orig);
        broadcast use vstd::multiset::group_multiset_axioms;

        vstd::seq_lib::to_multiset_len(rest@);
        vstd::multiset::lemma_multiset_empty_len(rest@.to_multiset());
        assert(rest@.to_multiset() =~= Multiset::<Branch>::empty());
        assert(out@.to_multiset() =~= orig.to_multiset());
    }
    out
}

/// Builds the error reported when a repository cannot be opened for the
/// listing: a missing path, a permission failure recognised in the error
/// text, or a plain open failure.
pub fn classify_open_failure(path: &str, path_present: bool, err: String) -> (e: Error)
    ensures
        !path_present ==> e.kind@ == "unable_to_access_dir"@ && e.message@ == "Unable to access the path: "@
            + path@,
        path_present && (contains_seq(lower_of(err@), "permission denied"@) || contains_seq(
            lower_of(err@),
            "not permitted"@,
        )) ==> e.kind@ == "command_execution_failed"@ && e.message@ == "Failed to execute git command: "@
            + path@,
        path_present && !(contains_seq(lower_of(err@), "permission denied"@) || contains_seq(
            lower_of(err@),
            "not permitted"@,
        )) ==> e.kind@ == "repository_open_failed"@ && e.message@
            == "Failed to open git repository at "@ + path@ + ": "@ + err@,
        e.description matches Some(d) && d@ == err@,
{
    if !path_present {
        let mut m = String::from_str("Unable to access the path: ");
        m.append(path);
        Error::new(m, "unable_to_access_dir", Some(err))
    } else {
        let low = gitio::lowercase(err.as_str());
        if contains_sub(low.as_str(), "permission denied") || contains_sub(low.as_str(), "not permitted") {
            let mut m = String::from_str("Failed to execute git command: ");
            m.append(path);
            Error::new(m, "command_execution_failed", Some(err))
        } else {
            let mut m = String::from_str("Failed to open git repository at ");
            m.append(path);
            m.append(": ");
            m.append(err.as_str());
            Error::new(m, "repository_open_failed", Some(err))
        }
    }
}

/// The entries' current flags are all defined by one name: an entry is
/// current exactly when it bears that name.
pub open spec fn current_flag_defined(v: Seq<Branch>, c: Seq<char>) -> bool {
    forall|i: int| 0 <= i < v.len() ==> (v[i].current <==> v[i].name@ == c)
}

/// Builds one listing entry per enumerated branch name, in enumeration
/// order: each entry bears its enumerated name, is marked current exactly
/// when that name is the current branch's, and carries a consistent tip
/// snapshot.  A name that is not valid UTF-8 fails the collection with
/// `invalid_utf8`; the per-branch queries contribute their own kinds.
pub fn collect_branch_entries(
    repo: &git2::Repository,
    names: &Vec<Option<String>>,
    current: &String,
) -> (r: Result<Vec<Branch>, Error>)
    ensures
        r matches Ok(v) ==> v@.len() == names@.len() && (forall|i: int|
            0 <= i < v@.len() ==> names@[i] is Some && v@[i].name@ == (names@[i]->0)@ && (
            v@[i].current <==> v@[i].name@ == current@) && commit_consistent(v@[i].last_commit)),
        r matches Err(e) ==> e.kind@ == "invalid_utf8"@ || e.kind@ == "branch_not_found"@
            || e.kind@ == "commit_peel_failed"@ || e.kind@ == "head_not_found"@ || e.kind@
            == "head_commit_failed"@ || e.kind@ == "branch_commit_failed"@,
{
    let mut out: Vec<Branch> = Vec::new();
    let mut idx: usize = 0;
    while idx < names.len()
        invariant
            0 <= idx <= names@.len(),
            out@.len() == idx,
            forall|k: int|
                0 <= k < out@.len() ==> names@[k] is Some && out@[k].name@ == (names@[k]->0)@ && (
                out@[k].current <==> out@[k].name@ == current@) && commit_consistent(
                    out@[k].last_commit,
                ),
        decreases names.len() - idx,
    {
        let name = match &names[idx] {
            Some(n) => n,
            None => {
                return Err(Error::new(
                    String::from_str("Branch name contains invalid UTF-8"),
                    "invalid_utf8",
                    None,
                ));
            },
        };
        let raw = match gitio::branch_tip(repo, name.as_str()) {
            Ok(raw) => raw,
            Err(gitio::TipError::Find(f)) => {
                return Err(step_error_about("Failed to find branch '", name.as_str(), "': ", f, "branch_not_found"));
            },
            Err(gitio::TipError::Peel(f)) => {
                return Err(step_error_about("Failed to get commit for branch ", name.as_str(), ": ", f, "commit_peel_failed"));
            },
        };
        let merged = match is_branch_merged(repo, name.as_str()) {
            Ok(m) => m,
            Err(e) => return Err(e),
        };
        let current_flag = *name == *current;
        out.push(listing_branch(name, raw, merged, current_flag));
        proof {
            assert(names@[idx as int] is Some);
            assert(out@[idx as int].name@ == (names@[idx as int]->0)@);
        }
        idx = idx + 1;
    }
    Ok(out)
}

/// The failure kinds the listing can report.
pub open spec fn listing_error_kind(k: Seq<char>) -> bool {
    ||| k == "unable_to_access_dir"@
    ||| k == "command_execution_failed"@
    ||| k == "repository_open_failed"@
    ||| k == "branch_list_failed"@
    ||| k == "branch_info_failed"@
    ||| k == "branch_name_failed"@
    ||| k == "invalid_utf8"@
    ||| k == "head_not_found"@
    ||| k == "detached_head"@
    ||| k == "invalid_branch_name"@
    ||| k == "branch_not_found"@
    ||| k == "commit_peel_failed"@
    ||| k == "head_commit_failed"@
    ||| k == "branch_commit_failed"@
    ||| k == "no_branches"@
}

/// Lists all local branches with the metadata of their tip commits, sorted
/// by case-insensitive name.
///
/// Every returned listing is nonempty, sorted, carries internally consistent
/// commit snapshots, and marks as current only branches bearing the current
/// branch's name; with distinct names that is at most one branch.  An empty
/// repository yields `no_branches`; the other failure kinds come from the
/// repository queries, as `listing_error_kind` lists them.
pub fn get_all_branches_with_last_commit(path: &str) -> (r: Result<Vec<Branch>, Error>)
    ensures
        r matches Ok(v) ==> v@.len() >= 1 && (forall|i: int, j: int|
            0 <= i < j < v@.len() ==> branch_le(v@[i], v@[j])) && (exists|c: Seq<char>|
            current_flag_defined(v@, c)) && (forall|i: int|
            0 <= i < v@.len() ==> commit_consistent(v@[i].last_commit)),
        r matches Err(e) ==> listing_error_kind(e.kind@),
{
    let repo = match gitio::open_repository(path) {
        Ok(repo) => repo,
        Err(of) => {
            let present = gitio::path_exists(path);
            return Err(classify_open_failure(path, present, of.message));
        },
    };
    let names = match gitio::local_branch_names(&repo) {
        Ok(n) => n,
        Err(gitio::ListError::List(f)) => {
            return Err(step_error("Failed to list branches: ", f, "branch_list_failed"));
        },
        Err(gitio::ListError::Entry(f)) => {
            return Err(step_error("Failed to get branch info: ", f, "branch_info_failed"));
        },
        Err(gitio::ListError::Name(f)) => {
            return Err(step_error("Failed to get branch name: ", f, "branch_name_failed"));
        },
    };
    let current = match get_current_branch(path) {
        Ok(c) => c,
        Err(e) => return Err(e),
    };
    let entries = match collect_branch_entries(&repo, &names, &current) {
        Ok(v) => v,
        Err(e) => return Err(e),
    };
    let ghost unsorted = entries@;
    let sorted = sort_branches(entries);
    if sorted.len() == 0 {
        let mut m = String::from_str("Couldn\\'t retrieve branches with last commit info in the path **");
        m.append(path);
        m.append("**");
        return Err(Error::new(m, "no_branches", None));
    }
    proof {
        lemma_perm_preserves_pointwise(
            unsorted,
            sorted@,
            |b: Branch| commit_consistent(b.last_commit) && (b.current <==> b.name@ == current@),
        );
        assert(current_flag_defined(sorted@, current@));
    }
    Ok(sorted)
}

/// In any listing whose branch names are distinct, at most one branch is
/// marked current: the current flags are defined by a single name, which at
/// most one entry can bear.
pub proof fn lemma_current_branch_exclusive(v: Seq<Branch>, c: Seq<char>)
    requires
        current_flag_defined(v, c),
        forall|i: int, j: int| 0 <= i < j < v.len() ==> v[i].name@ != v[j].name@,
    ensures
        forall|i: int, j: int| 0 <= i < j < v.len() ==> !(v[i].current && v[j].current),
{
}

/// The tip commit of the named branch, as a plain snapshot: id, short id,
/// rendered date, message summary, author and email.
///
/// Fails with `repository_open_failed`, `branch_not_found` or
/// `commit_peel_failed`.
pub fn get_last_commit_info(path: &str, branch: &str) -> (r: Result<Commit, Error>)
    ensures
        r matches Ok(c) ==> commit_consistent(c),
        r matches Err(e) ==> e.kind@ == "repository_open_failed"@ || e.kind@
            == "branch_not_found"@ || e.kind@ == "commit_peel_failed"@,
{
    let repo = match gitio::open_repository(path) {
        Ok(repo) => repo,
        Err(of) => {
            return Err(step_error_about(
                "Failed to open git repository at ",
                path,
                ": ",
                of.message,
                "repository_open_failed",
            ));
        },
    };
    let raw = match gitio::branch_tip(&repo, branch) {
        Ok(raw) => raw,
        Err(gitio::TipError::Find(f)) => {
            return Err(step_error_about("Failed to find branch '", branch, "': ", f, "branch_not_found"));
        },
        Err(gitio::TipError::Peel(f)) => {
            return Err(step_error_about("Failed to get commit for branch ", branch, ": ", f, "commit_peel_failed"));
        },
    };
    Ok(commit_from_raw(raw, true))
}

/// Two listings that observe the same branches are identical in order and
/// content.  When the observations come in the same order, this is the
/// exactness of `sorted_listing`: equal inputs sort to equal outputs.  This
/// lemma covers the stronger, order-free form: two sorted arrangements of
/// one collection of entries are equal outright, provided no two entries
/// tie under the case-insensitive order.
pub proof fn lemma_sorted_listing_unique(a: Seq<Branch>, b: Seq<Branch>)
    requires
        a.to_multiset() == b.to_multiset(),
        forall|i: int, j: int| 0 <= i < j < a.len() ==> branch_le(a[i], a[j]),
        forall|i: int, j: int| 0 <= i < j < b.len() ==> branch_le(b[i], b[j]),
        forall|i: int, j: int|
            0 <= i < j < a.len() ==> !(branch_le(a[i], a[j]) && branch_le(a[j], a[i])),
    ensures
        a =~= b,
    decreases a.len(),
{
    broadcast use vstd::seq_lib::group_to_multiset_ensures;

    vstd::seq_lib::to_multiset_len(a);
    vstd::seq_lib::to_multiset_len(b);
    if a.len() > 0 {
        assert(a.contains(a[0]));
        assert(b.to_multiset().count(a[0]) > 0);
        assert(b.contains(a[0]));
        let k = choose|k: int| 0 <= k < b.len() && b[k] == a[0];
        assert(b.contains(b[0]));
        assert(a.to_multiset().count(b[0]) > 0);
        assert(a.contains(b[0]));
        let m = choose|m: int| 0 <= m < a.len() && a[m] == b[0];
        if m > 0 {
            // a[0] and a[m] would tie: a[0] le a[m], and a[m] == b[0] le
            // b[k] == a[0].
            assert(branch_le(a[0], a[m]));
            if k > 0 {
                assert(branch_le(b[0], b[k]));
            } else {
                lemma_lex_le_refl(lower_of(b[0].name@));
            }
            assert(branch_le(a[m], a[0]));
            assert(false);
        }
        assert(a[0] == b[0]);
        let at = a.drop_first();
        let bt = b.drop_first();
        assert(at =~= a.remove(0));
        assert(bt =~= b.remove(0));
        vstd::seq_lib::to_multiset_remove(a, 0);
        vstd::seq_lib::to_multiset_remove(b, 0);
        assert(at.to_multiset() =~= bt.to_multiset());
        assert(forall|i: int, j: int| 0 <= i < j < at.len() ==> branch_le(at[i], at[j])) by {
            assert(forall|i: int, j: int|
                0 <= i < j < at.len() ==> at[i] == a[i + 1] && at[j] == a[j + 1]);
        }
        assert(forall|i: int, j: int| 0 <= i < j < bt.len() ==> branch_le(bt[i], bt[j])) by {
            assert(forall|i: int, j: int|
                0 <= i < j < bt.len() ==> bt[i] == b[i + 1] && bt[j] == b[j + 1]);
        }
        assert(forall|i: int, j: int|
            0 <= i < j < at.len() ==> !(branch_le(at[i], at[j]) && branch_le(at[j], at[i]))) by {
            assert(forall|i: int, j: int|
                0 <= i < j < at.len() ==> at[i] == a[i + 1] && at[j] == a[j + 1]);
        }
        lemma_sorted_listing_unique(at, bt);
        assert(a =~= seq![a[0]] + at);
        assert(b =~= seq![b[0]] + bt);
    } else {
        assert(b.len() == 0);
        assert(a =~= b);
    }
}

} // verus!
