use branch_manager::catalog::{branch_exists, get_all_branches_with_last_commit,
    get_current_branch};
use branch_manager::commits::is_commit_reachable;
use branch_manager::mutation::{delete_branches, switch_branch};
use branch_manager::restore::{restore_deleted_branch, restore_deleted_branches};
use branch_manager::types::{ConflictResolution, RestoreBranchInput};

fn setup_test_repo() -> (tempfile::TempDir, String) {
    let dir = tempfile::tempdir().unwrap();
    let repo = git2::Repository::init(dir.path()).unwrap();
    let sig = git2::Signature::now("Test User", "test@example.com").unwrap();
    let tree_id = {
        let mut index = repo.index().unwrap();
        index.write_tree().unwrap()
    };
    let tree = repo.find_tree(tree_id).unwrap();
    repo.commit(Some("HEAD"), &sig, &sig, "Initial commit", &tree, &[]).unwrap();
    let path = dir.path().to_str().unwrap().to_string();
    (dir, path)
}

fn current_branch_name(path: &str) -> String {
    let repo = git2::Repository::open(path).unwrap();
    let head = repo.head().unwrap();
    let name = head.shorthand().unwrap().to_string();
    name
}

fn head_sha(path: &str) -> String {
    let repo = git2::Repository::open(path).unwrap();
    let sha = repo.head().unwrap().peel_to_commit().unwrap().id().to_string();
    sha
}

fn create_branch(path: &str, name: &str) {
    let repo = git2::Repository::open(path).unwrap();
    let commit = repo.head().unwrap().peel_to_commit().unwrap();
    repo.branch(name, &commit, false).unwrap();
}

fn delete_branch_raw(path: &str, name: &str) {
    let repo = git2::Repository::open(path).unwrap();
    let mut b = repo.find_branch(name, git2::BranchType::Local).unwrap();
    b.delete().unwrap();
}

#[test]
fn test_branch_exists() {
    let (_dir, path) = setup_test_repo();
    let current = current_branch_name(&path);

    let result = branch_exists(&path, &current);
    assert!(result.is_ok());
    assert!(result.unwrap());

    let result = branch_exists(&path, "non-existent-branch");
    assert!(result.is_ok());
    assert!(!result.unwrap());
}

#[test]
fn test_get_current_branch() {
    let (_dir, path) = setup_test_repo();
    let expected = current_branch_name(&path);

    let current = get_current_branch(&path);
    assert!(current.is_ok(), "get_current_branch failed: {:?}", current.err());
    assert_eq!(current.unwrap(), expected);
}

#[test]
fn test_get_current_branch_detached() {
    let (_dir, path) = setup_test_repo();
    let sha = head_sha(&path);
    let repo = git2::Repository::open(&path).unwrap();
    repo.set_head_detached(git2::Oid::from_str(&sha).unwrap()).unwrap();

    let result = get_current_branch(&path);
    assert!(result.is_err(), "Expected error for detached HEAD");
    assert_eq!(result.err().unwrap().kind, "detached_head");
}

#[test]
fn test_get_all_branches_with_last_commit() {
    let (_dir, path) = setup_test_repo();
    let current = current_branch_name(&path);

    let branches_result = get_all_branches_with_last_commit(&path);
    assert!(
        branches_result.is_ok(),
        "get_all_branches_with_last_commit failed: {:?}",
        branches_result.err()
    );
    let branches = branches_result.unwrap();

    assert!(!branches.is_empty(), "No branches returned");

    let current_branch_opt = branches.iter().find(|b| b.name == current);
    assert!(current_branch_opt.is_some(), "Current branch not found in results");
    let current_branch_obj = current_branch_opt.unwrap();
    assert!(current_branch_obj.current, "Current branch not marked as current");

    assert!(!current_branch_obj.last_commit.sha.is_empty(), "Commit SHA is empty");
    assert!(!current_branch_obj.last_commit.message.is_empty(), "Commit message is empty");
}

#[test]
fn test_switch_branch() {
    let (_dir, path) = setup_test_repo();
    let original_branch = current_branch_name(&path);

    create_branch(&path, "test-switch-branch");

    let result = switch_branch(&path, "test-switch-branch");
    assert!(result.is_ok(), "Failed to switch to test-switch-branch: {:?}", result.err());
    assert_eq!(result.unwrap(), "test-switch-branch");
    assert_eq!(current_branch_name(&path), "test-switch-branch");

    let result = switch_branch(&path, &original_branch);
    assert!(result.is_ok(), "Failed to switch back to original: {:?}", result.err());
    assert_eq!(result.unwrap(), original_branch);
    assert_eq!(current_branch_name(&path), original_branch);
}

#[test]
fn test_switch_branch_not_found() {
    let (_dir, path) = setup_test_repo();

    let result = switch_branch(&path, "no-such-branch");
    assert!(result.is_err());
    let e = result.err().unwrap();
    assert_eq!(e.kind, "branch_not_found");
    assert_eq!(e.message, "Branch **no-such-branch** not found");
}

#[test]
fn test_delete_branches() {
    let (_dir, path) = setup_test_repo();

    create_branch(&path, "test-branch-to-delete");

    let branches_to_delete = vec!["test-branch-to-delete".to_string()];
    let result = delete_branches(&path, &branches_to_delete);
    assert!(result.is_ok(), "delete_branches failed: {:?}", result.err());
    let deleted = result.unwrap();
    assert_eq!(deleted.len(), 1);
    assert_eq!(deleted[0].branch.name, "test-branch-to-delete");
    let short = &deleted[0].branch.last_commit.short_sha;
    assert_eq!(deleted[0].raw_output, format!("Deleted branch test-branch-to-delete (was {})", short));

    let verify_delete_result = branch_exists(&path, "test-branch-to-delete");
    assert!(!verify_delete_result.unwrap_or(true), "Branch should have been deleted");
}

#[test]
fn test_delete_atomicity() {
    // Requesting [A, B, C] where C does not exist must fail the whole batch
    // and leave A and B in place.
    let (_dir, path) = setup_test_repo();
    create_branch(&path, "branch-a");
    create_branch(&path, "branch-b");

    let names = vec![
        "branch-a".to_string(),
        "branch-b".to_string(),
        "branch-c".to_string(),
    ];
    let result = delete_branches(&path, &names);
    assert!(result.is_err(), "Batch with a missing name must be rejected");
    let e = result.err().unwrap();
    assert_eq!(e.kind, "branches_not_found");
    assert_eq!(
        e.message,
        "Branch(es) not found: **branch-c**. The branch(es) **branch-a, branch-b** still exist(s)."
    );

    assert!(branch_exists(&path, "branch-a").unwrap());
    assert!(branch_exists(&path, "branch-b").unwrap());
}

#[test]
fn test_is_commit_reachable() {
    let (_dir, path) = setup_test_repo();
    let commit_sha = head_sha(&path);

    let result = is_commit_reachable(&path, &commit_sha);
    assert!(result.is_ok());
    assert!(result.unwrap(), "Current HEAD commit should be reachable");

    let invalid_sha = "deadbeefdeadbeefdeadbeefdeadbeefdeadbeef";
    let result = is_commit_reachable(&path, invalid_sha);
    assert!(result.is_ok());
    assert!(!result.unwrap(), "Non-existent commit should not be reachable");
}

#[test]
fn test_is_commit_reachable_comprehensive() {
    let non_git_dir = tempfile::tempdir().unwrap();
    let non_git_path = non_git_dir.path().to_str().unwrap().to_string();
    let dummy_sha = "0123456789abcdef0123456789abcdef01234567";
    let result = is_commit_reachable(&non_git_path, dummy_sha);
    assert!(result.is_ok());
    assert!(!result.unwrap(), "is_commit_reachable should return false for non-git directories");

    let (_dir, path) = setup_test_repo();
    let full_sha = head_sha(&path);

    let short_sha = full_sha[..7].to_string();
    let result = is_commit_reachable(&path, &short_sha);
    assert!(result.is_ok());
    assert!(result.unwrap(), "Short SHA should be reachable");

    let non_existent_sha = "7f7f7f7f7f7f7f7f7f7f7f7f7f7f7f7f7f7f7f7f";
    let result = is_commit_reachable(&path, non_existent_sha);
    assert!(result.is_ok());
    assert!(!result.unwrap(), "Non-existent SHA should not be reachable");

    let malformed_sha = "not-a-sha";
    let result = is_commit_reachable(&path, malformed_sha);
    assert!(result.is_ok());
    assert!(!result.unwrap(), "Malformed SHA should not be reachable");

    let empty_sha = "";
    let result = is_commit_reachable(&path, empty_sha);
    assert!(result.is_ok());
    assert!(!result.unwrap(), "Empty SHA should not be reachable");
}

#[test]
fn test_restore_deleted_branch() {
    let (_dir, path) = setup_test_repo();
    let commit_sha = head_sha(&path);

    let branch_to_delete_name = "branch-for-restore-test";
    create_branch(&path, branch_to_delete_name);
    assert!(branch_exists(&path, branch_to_delete_name).unwrap());
    delete_branch_raw(&path, branch_to_delete_name);
    assert!(!branch_exists(&path, branch_to_delete_name).unwrap());

    let restore_input = RestoreBranchInput {
        original_name: branch_to_delete_name.to_string(),
        target_name: branch_to_delete_name.to_string(),
        commit_sha: commit_sha.clone(),
        conflict_resolution: None,
    };

    let result = restore_deleted_branch(&path, &restore_input);
    assert!(result.is_ok(), "Restore failed: {:?}", result.err());
    let restore_result = result.unwrap();
    assert!(restore_result.success, "Restore was not successful: {}", restore_result.message);
    assert_eq!(restore_result.branch_name, branch_to_delete_name);
    assert!(!restore_result.skipped);
    assert!(restore_result.branch.is_some());
    assert!(branch_exists(&path, branch_to_delete_name).unwrap());

    // Conflict without a resolution strategy: report back, mutate nothing
    let sha_before = head_sha(&path);
    let conflict_input = RestoreBranchInput {
        original_name: "some-other-original-name".to_string(),
        target_name: branch_to_delete_name.to_string(),  // This now exists
        commit_sha: commit_sha.clone(),
        conflict_resolution: None,
    };
    let result = restore_deleted_branch(&path, &conflict_input);
    assert!(result.is_ok());
    let conflict_result = result.unwrap();
    assert!(!conflict_result.success);
    assert!(conflict_result.requires_user_action);
    assert!(conflict_result.conflict_details.is_some());
    assert_eq!(
        conflict_result.message,
        format!(
            "Branch '{}' already exists. Please choose a conflict resolution strategy.",
            branch_to_delete_name
        )
    );
    let details = conflict_result.conflict_details.unwrap();
    assert_eq!(details.conflicting_name, branch_to_delete_name);
    assert_eq!(details.original_name, "some-other-original-name");
    // The existing branch is untouched
    let repo = git2::Repository::open(&path).unwrap();
    let tip = repo
        .find_branch(branch_to_delete_name, git2::BranchType::Local)
        .unwrap()
        .get()
        .peel_to_commit()
        .unwrap()
        .id()
        .to_string();
    assert_eq!(tip, sha_before);

    // Skip resolution: report skipped, mutate nothing
    let skip_input = RestoreBranchInput {
        original_name: "another-original".to_string(),
        target_name: branch_to_delete_name.to_string(),  // Still exists
        commit_sha: commit_sha.clone(),
        conflict_resolution: Some(ConflictResolution::Skip),
    };
    let result = restore_deleted_branch(&path, &skip_input);
    assert!(result.is_ok());
    let skip_result = result.unwrap();
    assert!(skip_result.skipped, "Branch should have been skipped");
    assert!(!skip_result.requires_user_action);
    assert!(skip_result.message.contains("Skipped creation of branch"));
    assert_eq!(
        skip_result.message,
        format!("Skipped creation of branch '{}'", branch_to_delete_name)
    );
    assert!(branch_exists(&path, branch_to_delete_name).unwrap());
}

#[test]
fn test_restore_round_trip() {
    // Delete branch X at commit c, restore it under the same name at the
    // same commit: the restoration succeeds and X exists again.
    let (_dir, path) = setup_test_repo();
    let commit_sha = head_sha(&path);

    create_branch(&path, "round-trip-branch");
    let names = vec!["round-trip-branch".to_string()];
    let deleted = delete_branches(&path, &names).unwrap();
    assert_eq!(deleted.len(), 1);
    assert!(!branch_exists(&path, "round-trip-branch").unwrap());

    let input = RestoreBranchInput {
        original_name: "round-trip-branch".to_string(),
        target_name: "round-trip-branch".to_string(),
        commit_sha: deleted[0].branch.last_commit.sha.clone(),
        conflict_resolution: None,
    };
    let result = restore_deleted_branch(&path, &input).unwrap();
    assert!(result.success);
    assert_eq!(result.branch_name, "round-trip-branch");
    assert_eq!(
        result.message,
        format!(
            "Branch 'round-trip-branch' has been successfully restored at commit {}",
            commit_sha
        )
    );
    assert!(branch_exists(&path, "round-trip-branch").unwrap());

    // The branch is back at the recorded commit
    let repo = git2::Repository::open(&path).unwrap();
    let tip = repo
        .find_branch("round-trip-branch", git2::BranchType::Local)
        .unwrap()
        .get()
        .peel_to_commit()
        .unwrap()
        .id()
        .to_string();
    assert_eq!(tip, commit_sha);
}

#[test]
fn test_restore_deleted_branch_with_overwrite() {
    let (_dir, path) = setup_test_repo();
    let commit_sha = head_sha(&path);

    let test_branch_name = "test-overwrite-branch";
    let conflict_branch_name = "existing-conflict-branch";
    create_branch(&path, conflict_branch_name);

    let restore_info = RestoreBranchInput {
        original_name: test_branch_name.to_string(),
        target_name: conflict_branch_name.to_string(),
        commit_sha: commit_sha.clone(),
        conflict_resolution: Some(ConflictResolution::Overwrite),
    };

    let result = restore_deleted_branch(&path, &restore_info);
    assert!(result.is_ok(), "Restore with overwrite failed: {:?}", result.err());
    let restore_result = result.unwrap();
    assert!(restore_result.success, "Restore with overwrite not successful: {}", restore_result.message);
    assert_eq!(restore_result.branch_name, conflict_branch_name);
    assert!(branch_exists(&path, conflict_branch_name).unwrap());

    // The branch was recreated at the recorded commit
    let repo = git2::Repository::open(&path).unwrap();
    let tip = repo
        .find_branch(conflict_branch_name, git2::BranchType::Local)
        .unwrap()
        .get()
        .peel_to_commit()
        .unwrap()
        .id()
        .to_string();
    assert_eq!(tip, commit_sha);

    // The original name was not created
    assert!(!branch_exists(&path, test_branch_name).unwrap_or(true));
}

#[test]
fn test_restore_deleted_branches() {
    let (_dir, path) = setup_test_repo();
    let commit_sha = head_sha(&path);

    let branch_names = vec!["test-branch-1", "test-branch-2", "test-branch-3"];
    for branch_name in &branch_names {
        create_branch(&path, branch_name);
        delete_branch_raw(&path, branch_name);
    }

    let restore_inputs: Vec<RestoreBranchInput> = branch_names
        .iter()
        .map(|name| RestoreBranchInput {
            original_name: name.to_string(),
            target_name: name.to_string(),
            commit_sha: commit_sha.clone(),
            conflict_resolution: None,
        })
        .collect();

    let result = restore_deleted_branches(&path, &restore_inputs);
    assert!(result.is_ok(), "Restore failed: {:?}", result.err());
    let restore_results = result.unwrap();
    assert_eq!(restore_results.len(), branch_names.len());

    for (name, result) in restore_results {
        assert!(result.success, "Branch {} restore failed: {}", name, result.message);
        assert!(!result.skipped);
        assert!(branch_exists(&path, &name).unwrap());
    }

    // Conflicts: one unresolved, one skipped
    let conflict_inputs = vec![
        RestoreBranchInput {
            original_name: "conflict-original-1".to_string(),
            target_name: branch_names[0].to_string(),  // This now exists
            commit_sha: commit_sha.clone(),
            conflict_resolution: None,
        },
        RestoreBranchInput {
            original_name: "conflict-original-2".to_string(),
            target_name: branch_names[1].to_string(),  // This now exists
            commit_sha: commit_sha.clone(),
            conflict_resolution: Some(ConflictResolution::Skip),
        },
    ];

    let result = restore_deleted_branches(&path, &conflict_inputs);
    assert!(result.is_ok(), "Restore with conflicts failed: {:?}", result.err());
    let conflict_results = result.unwrap();
    assert_eq!(conflict_results.len(), conflict_inputs.len());

    for (_name, result) in conflict_results {
        if result.conflict_details.is_some() {
            assert!(!result.success);
            assert!(result.requires_user_action);
        } else if result.skipped {
            assert!(result.message.contains("Skipped creation of branch"));
        }
    }

    // Overwrite both existing targets
    let overwrite_inputs = vec![
        RestoreBranchInput {
            original_name: "overwrite-original-1".to_string(),
            target_name: branch_names[0].to_string(),
            commit_sha: commit_sha.clone(),
            conflict_resolution: Some(ConflictResolution::Overwrite),
        },
        RestoreBranchInput {
            original_name: "overwrite-original-2".to_string(),
            target_name: branch_names[1].to_string(),
            commit_sha: commit_sha.clone(),
            conflict_resolution: Some(ConflictResolution::Overwrite),
        },
    ];

    let result = restore_deleted_branches(&path, &overwrite_inputs);
    assert!(result.is_ok(), "Restore with overwrite failed: {:?}", result.err());
    let overwrite_results = result.unwrap();
    assert_eq!(overwrite_results.len(), overwrite_inputs.len());

    for (name, result) in overwrite_results {
        assert!(result.success, "Overwrite failed for {}: {}", name, result.message);
        assert!(!result.skipped);
        assert!(branch_exists(&path, &name).unwrap());
    }
}

#[test]
fn test_restore_deleted_branches_errors() {
    // The batch itself never fails: an entry's hard failure is recorded as
    // that entry's own non-success outcome.
    let temp_dir = tempfile::tempdir().unwrap();
    let non_git_path = temp_dir.path().to_str().unwrap().to_string();

    let restore_inputs = vec![RestoreBranchInput {
        original_name: "test-branch".to_string(),
        target_name: "test-branch".to_string(),
        commit_sha: "invalid-sha".to_string(),
        conflict_resolution: None,
    }];

    // Non-git directory: the one entry fails, the batch reports it in place
    let result = restore_deleted_branches(&non_git_path, &restore_inputs).unwrap();
    assert_eq!(result.len(), 1);
    assert!(!result[0].1.success, "Expected a failed entry for non-git directory");
    assert!(!result[0].1.skipped);
    assert!(!result[0].1.requires_user_action);
    assert!(result[0].1.conflict_details.is_none());
    assert!(result[0].1.message.contains("Failed to open git repository"));

    // Invalid commit SHA: same, with the commit-not-found text
    let (_dir, path) = setup_test_repo();
    let result = restore_deleted_branches(&path, &restore_inputs).unwrap();
    assert_eq!(result.len(), 1);
    assert!(!result[0].1.success, "Expected a failed entry for invalid commit SHA");
    assert!(!result[0].1.skipped);
    assert!(!result[0].1.requires_user_action);
    assert!(result[0].1.message.contains("Commit **invalid-sha** not found in the repository"));
}

#[test]
fn test_batch_hard_failure_isolated() {
    // One entry's hard failure does not prevent a later entry from
    // succeeding.
    let (_dir, path) = setup_test_repo();
    let commit_sha = head_sha(&path);

    let inputs = vec![
        RestoreBranchInput {
            original_name: "broken-entry".to_string(),
            target_name: "broken-entry".to_string(),
            commit_sha: "0000000000000000000000000000000000000000".to_string(),
            conflict_resolution: None,
        },
        RestoreBranchInput {
            original_name: "sound-entry".to_string(),
            target_name: "sound-entry".to_string(),
            commit_sha: commit_sha.clone(),
            conflict_resolution: None,
        },
    ];

    let results = restore_deleted_branches(&path, &inputs).unwrap();
    assert_eq!(results.len(), 2);
    assert!(!results[0].1.success);
    assert!(!results[0].1.skipped);
    assert!(!results[0].1.requires_user_action);
    assert!(results[1].1.success, "Second entry must succeed: {}", results[1].1.message);
    assert!(branch_exists(&path, "sound-entry").unwrap());
    assert!(!branch_exists(&path, "broken-entry").unwrap());
}

#[test]
fn test_restore_deleted_branch_errors() {
    let temp_dir = tempfile::tempdir().unwrap();
    let non_git_path = temp_dir.path().to_str().unwrap().to_string();

    let restore_input = RestoreBranchInput {
        original_name: "test-branch".to_string(),
        target_name: "test-branch".to_string(),
        commit_sha: "invalid-sha".to_string(),
        conflict_resolution: None,
    };

    // Non-git directory
    let result = restore_deleted_branch(&non_git_path, &restore_input);
    assert!(result.is_err(), "Expected error for non-git directory");
    if let Err(e) = result {
        assert!(
            e.message.contains("Failed to open git repository"),
            "Unexpected error message: {}",
            e.message
        );
        assert_eq!(e.kind, "repository_open_failed");
    }

    // Invalid commit SHA
    let (_dir, path) = setup_test_repo();
    let result = restore_deleted_branch(&path, &restore_input);
    assert!(result.is_err(), "Expected error for invalid commit SHA");
    if let Err(e) = result {
        assert!(
            e.message.contains("Commit **invalid-sha** not found in the repository"),
            "Unexpected error message: {}",
            e.message
        );
        assert_eq!(e.kind, "commit_not_found");
    }

    // Syntactically valid but non-existent commit: no branch is created
    let restore_input = RestoreBranchInput {
        original_name: "test-branch".to_string(),
        target_name: "test-branch".to_string(),
        commit_sha: "0000000000000000000000000000000000000000".to_string(),
        conflict_resolution: None,
    };

    let result = restore_deleted_branch(&path, &restore_input);
    assert!(result.is_err(), "Expected error for non-existent commit");
    if let Err(e) = result {
        assert!(
            e.message.contains(
                "Commit **0000000000000000000000000000000000000000** not found in the repository"
            ),
            "Unexpected error message: {}",
            e.message
        );
        assert_eq!(e.kind, "commit_not_found");
    }
    assert!(!branch_exists(&path, "test-branch").unwrap());

    // Invalid branch name rejected by the storage layer
    let commit_sha = head_sha(&path);
    let invalid_branch_input = RestoreBranchInput {
        original_name: "test branch with spaces".to_string(),
        target_name: "test branch with spaces".to_string(),
        commit_sha: commit_sha.clone(),
        conflict_resolution: None,
    };

    let result = restore_deleted_branch(&path, &invalid_branch_input);
    assert!(result.is_err(), "Expected error for invalid branch name");
    if let Err(e) = result {
        assert!(
            e.message.contains("Failed to create branch"),
            "Unexpected error message: {}",
            e.message
        );
        assert_eq!(e.kind, "create_branch_failed");
    }
}

#[test]
fn branch_test_get_current_branch_errors() {
    let temp_dir = tempfile::tempdir().unwrap();
    let non_git_path = temp_dir.path().to_str().unwrap().to_string();
    let result = get_current_branch(&non_git_path);
    assert!(result.is_err(), "Expected error for non-git directory");
}

#[test]
fn tests_test_get_current_branch_errors() {
    let temp_dir = tempfile::tempdir().unwrap();
    let non_git_path = temp_dir.path().to_str().unwrap().to_string();
    let result = get_current_branch(&non_git_path);
    assert!(result.is_err(), "Expected error for non-git directory");
}

#[test]
fn test_branch_exists_errors() {
    let temp_dir = tempfile::tempdir().unwrap();
    let non_git_path = temp_dir.path().to_str().unwrap().to_string();
    let result = branch_exists(&non_git_path, "main");
    assert!(
        result.is_ok(),
        "branch_exists should handle non-git directories gracefully by returning Ok(false)"
    );
    assert!(!result.unwrap());
}

#[test]
fn test_get_all_branches_with_last_commit_errors() {
    let temp_dir = tempfile::tempdir().unwrap();
    let non_git_path = temp_dir.path().to_str().unwrap().to_string();
    let result = get_all_branches_with_last_commit(&non_git_path);
    assert!(result.is_err(), "Expected error for non-git directory");

    let result = get_all_branches_with_last_commit("/non/existent/path/hopefully");
    assert!(result.is_err());
    if let Err(e) = result {
        assert!(e.message.contains("Unable to access the path"));
        assert_eq!(e.kind, "unable_to_access_dir");
    }
}

#[test]
fn test_batch_independence() {
    // One valid item and one conflicting item in a batch: the first
    // succeeds, the second reports the conflict, and neither disturbs the
    // other.
    let (_dir, path) = setup_test_repo();
    let commit_sha = head_sha(&path);

    create_branch(&path, "already-there");

    let inputs = vec![
        RestoreBranchInput {
            original_name: "fresh-branch".to_string(),
            target_name: "fresh-branch".to_string(),
            commit_sha: commit_sha.clone(),
            conflict_resolution: None,
        },
        RestoreBranchInput {
            original_name: "already-there".to_string(),
            target_name: "already-there".to_string(),
            commit_sha: commit_sha.clone(),
            conflict_resolution: None,
        },
    ];

    let results = restore_deleted_branches(&path, &inputs).unwrap();
    assert_eq!(results.len(), 2);
    assert!(results[0].1.success, "First item must succeed: {}", results[0].1.message);
    assert!(!results[1].1.success);
    assert!(results[1].1.requires_user_action);
    assert!(results[1].1.conflict_details.is_some());
    assert!(branch_exists(&path, "fresh-branch").unwrap());
}

#[test]
fn test_listing_idempotent() {
    // Listing twice without intervening mutation yields the same branches
    // in the same order with the same content.
    let (_dir, path) = setup_test_repo();
    create_branch(&path, "alpha");
    create_branch(&path, "beta");

    let first = get_all_branches_with_last_commit(&path).unwrap();
    let second = get_all_branches_with_last_commit(&path).unwrap();

    assert_eq!(first.len(), second.len());
    for (a, b) in first.iter().zip(second.iter()) {
        assert_eq!(a.name, b.name);
        assert_eq!(a.current, b.current);
        assert_eq!(a.fully_merged, b.fully_merged);
        assert_eq!(a.last_commit.sha, b.last_commit.sha);
        assert_eq!(a.last_commit.short_sha, b.last_commit.short_sha);
        assert_eq!(a.last_commit.date, b.last_commit.date);
        assert_eq!(a.last_commit.message, b.last_commit.message);
        assert_eq!(a.last_commit.author, b.last_commit.author);
        assert_eq!(a.last_commit.email, b.last_commit.email);
    }
}

#[test]
fn test_current_branch_exclusive() {
    // At most one branch in a listing is marked current.
    let (_dir, path) = setup_test_repo();
    create_branch(&path, "one");
    create_branch(&path, "two");
    create_branch(&path, "three");

    let branches = get_all_branches_with_last_commit(&path).unwrap();
    let current_count = branches.iter().filter(|b| b.current).count();
    assert_eq!(current_count, 1);
}

#[test]
fn test_merged_by_definition() {
    // A branch at the HEAD commit is always fully merged.
    let (_dir, path) = setup_test_repo();
    create_branch(&path, "at-head");

    let branches = get_all_branches_with_last_commit(&path).unwrap();
    for b in &branches {
        assert!(b.fully_merged, "Branch {} at HEAD must be fully merged", b.name);
    }
}

#[test]
fn test_case_insensitive_sort() {
    // Sorting lowercases the names: "alpha" comes before "Zeta" although
    // 'Z' precedes 'a' in code-point order.
    let (_dir, path) = setup_test_repo();
    let current = current_branch_name(&path);
    create_branch(&path, "Zeta");
    create_branch(&path, "alpha");

    let branches = get_all_branches_with_last_commit(&path).unwrap();
    let names: Vec<&str> = branches.iter().map(|b| b.name.as_str()).collect();
    let mut expected = vec!["alpha", current.as_str(), "Zeta"];
    expected.sort_by_key(|n| n.to_lowercase());
    assert_eq!(names, expected);
}
