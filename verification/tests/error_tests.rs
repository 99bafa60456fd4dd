use branch_manager::error::Error;

#[test]
fn test_error_creation() {
    // Test creating an error with a description
    let error = Error::new(
        "Test error message".to_string(),
        "test_error",
        Some("Error description".to_string()),
    );

    assert_eq!(error.message, "Test error message");
    assert_eq!(error.kind, "test_error");
    assert_eq!(error.description, Some("Error description".to_string()));

    // Test creating an error without a description
    let error = Error::new("Test error message".to_string(), "test_error", None);

    assert_eq!(error.message, "Test error message");
    assert_eq!(error.kind, "test_error");
    assert_eq!(error.description, None);
}

#[test]
fn test_error_display() {
    // Test display formatting with description
    let error = Error::new(
        "Test error message".to_string(),
        "test_error",
        Some("Error description".to_string()),
    );

    assert_eq!(error.to_display_string(), "Test error message (Error description)");

    // Test display formatting without description
    let error = Error::new("Test error message".to_string(), "test_error", None);

    assert_eq!(error.to_display_string(), "Test error message");
}

#[test]
fn test_error_as_std_error() {
    // The boxed error renders through the same display text
    let error = Error::new(
        "Test error message".to_string(),
        "test_error",
        Some("Error description".to_string()),
    );

    let boxed: Box<Error> = Box::new(error);

    assert_eq!(boxed.to_display_string(), "Test error message (Error description)");
}

#[test]
fn test_deleted_branch_to_restore_input() {
    let record = branch_manager::types::DeletedBranch {
        original_name: "old-name".to_string(),
        target_name: "new-name".to_string(),
        commit_sha: "0123456789abcdef0123456789abcdef01234567".to_string(),
        conflict_resolution: Some(branch_manager::types::ConflictResolution::Rename),
    };
    let input = record.to_restore_input();
    assert_eq!(input.original_name, "old-name");
    assert_eq!(input.target_name, "new-name");
    assert_eq!(input.commit_sha, "0123456789abcdef0123456789abcdef01234567");
    assert!(matches!(
        input.conflict_resolution,
        Some(branch_manager::types::ConflictResolution::Rename)
    ));
}
