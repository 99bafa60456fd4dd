use std::collections::HashSet;

use branch_manager::repository::{calculate_hash, get_root_path, is_git_repository,
    RootPathResponse};

fn setup_test_repo() -> (tempfile::TempDir, String) {
    let dir = tempfile::tempdir().unwrap();
    let repo = git2::Repository::init(dir.path()).unwrap();
    let sig = git2::Signature::now("Test User", "test@example.com").unwrap();
    let tree_id = {
        let mut index = repo.index().unwrap();
        index.write_tree().unwrap()
    };
    let tree = repo.find_tree(tree_id).unwrap();
    repo.commit(Some("HEAD"), &sig, &sig, "Initial commit", &tree, &[]).unwrap();
    let path = dir.path().to_str().unwrap().to_string();
    (dir, path)
}

#[test]
fn test_is_git_repository() {
    // Test a valid git repository
    let (_dir, path) = setup_test_repo();
    let result = is_git_repository(&path);
    assert!(result.is_ok(), "Expected Ok for git repository check, got {:?}", result);
    assert!(result.unwrap(), "Expected true for git repository");

    // Test with a non-git directory
    let non_git_dir = tempfile::tempdir().unwrap();
    let non_git_path = non_git_dir.path().to_str().unwrap().to_string();
    let result = is_git_repository(&non_git_path);
    assert!(result.is_ok(), "Expected Ok for non-git repository check, got {:?}", result);
    assert!(!result.unwrap(), "Expected false for non-git repository");

    // Test with a path that does not exist
    let result = is_git_repository("/path/that/does/not/exist/ever");
    assert!(result.is_ok(), "Expected Ok for non-existent path, got {:?}", result);
    assert!(!result.unwrap(), "Expected false for non-existent path");
}

#[test]
fn test_get_root_non_git_repository() {
    // A temporary directory that is not a git repository
    let non_git_repo = tempfile::tempdir().unwrap();
    let non_git_path = non_git_repo.path().to_str().unwrap().to_string();

    let result = get_root_path(&non_git_path);

    assert!(result.is_err(), "Should error for non-git repository");
    if let Err(e) = result {
        assert_eq!(e.kind, "is_not_git_repository", "Wrong error kind for non-git repository");
    }
}

#[test]
fn test_get_root_with_bare_repo() {
    // A bare repository has no working directory
    let temp_dir = tempfile::tempdir().unwrap();
    let _repo = git2::Repository::init_bare(temp_dir.path()).unwrap();

    let path_str = temp_dir.path().to_str().unwrap().to_string();
    let result = get_root_path(&path_str);
    assert!(result.is_err());
    if let Err(e) = result {
        assert_eq!(e.kind, "no_workdir");
    }
}

#[test]
fn test_get_root_success() {
    let (_dir, path) = setup_test_repo();

    let result = get_root_path(&path);
    assert!(result.is_ok());

    if let Ok(response) = result {
        // The working directory carries a trailing separator; compare the
        // normalized forms.
        let expected = path.trim_end_matches('/');
        let actual = response.root_path.trim_end_matches('/');
        assert_eq!(actual, expected);
        assert!(response.id.is_some());
    }
}

#[test]
fn test_calculate_hash() {
    let value1 = "test";
    let value2 = "test";
    let value3 = "different";

    // Same values should produce the same hash
    assert_eq!(calculate_hash(&value1), calculate_hash(&value2));

    // Different values should produce different hashes
    assert_ne!(calculate_hash(&value1), calculate_hash(&value3));
}

#[test]
fn test_root_path_response_hash() {
    // Test the Hash implementation for RootPathResponse
    let resp1 = RootPathResponse { root_path: "/path/to/repo".to_string(), id: Some(12345) };

    let resp2 = RootPathResponse {
        root_path: "/path/to/repo".to_string(),  // Same path
        id: Some(67890),  // Different ID
    };

    let resp3 = RootPathResponse {
        root_path: "/different/path".to_string(),  // Different path
        id: Some(12345),  // Same ID
    };

    let resp4 = RootPathResponse {
        root_path: "/path/to/repo".to_string(),  // Same as resp1
        id: Some(12345),  // Same as resp1
    };

    let mut set = HashSet::new();

    set.insert(resp1);
    set.insert(resp2);
    set.insert(resp3);

    // Since resp1 and resp2 have the same path, only one should be in the
    // set; resp3 has a different path, so it should be in the set.
    assert_eq!(set.len(), 2, "HashSet should contain only 2 items");

    // Verify resp4 (identical to resp1) is not added as a new item
    let was_new = set.insert(resp4);
    assert!(!was_new, "Identical item should not be added to HashSet");
    assert_eq!(set.len(), 2, "HashSet size should remain 2");
}

#[test]
fn test_eq_implementation() {
    // Test the Eq implementation for RootPathResponse
    let resp1 = RootPathResponse { root_path: "/path/to/repo".to_string(), id: Some(12345) };

    let resp2 = RootPathResponse {
        root_path: "/path/to/repo".to_string(),  // Same path
        id: Some(67890),  // Different ID - should be ignored
    };

    let resp3 = RootPathResponse {
        root_path: "/different/path".to_string(),  // Different path
        id: Some(12345),  // Same ID - should be ignored
    };

    // Test equality based on path only
    assert_eq!(resp1, resp2, "Items with same path should be equal");
    assert_ne!(resp1, resp3, "Items with different paths should not be equal");
}

#[test]
fn test_handlers_exist() {
    // Verify that the operations the shell binds to exist in the library
    let _ = branch_manager::repository::get_repo_info;
    let _ = branch_manager::repository::get_root_path;
    let _ = branch_manager::mutation::switch_branch;
    let _ = branch_manager::mutation::delete_branches;
    let _ = branch_manager::commits::is_commit_reachable;
    let _ = branch_manager::restore::restore_deleted_branch;
    let _ = branch_manager::restore::restore_deleted_branches;
}
