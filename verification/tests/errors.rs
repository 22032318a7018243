use auth_core::error::{DomainError, RepositoryError};

#[test]
fn repository_errors_describe_themselves() {
    assert_eq!(RepositoryError::NotFound.message(), "Not found");
    assert_eq!(RepositoryError::Conflict.message(), "Conflict");
    assert_eq!(RepositoryError::DatabaseError("boom".to_string()).message(), "Database error: boom");
    assert_eq!(RepositoryError::DatabaseError(String::new()).message(), "Database error: ");
}

#[test]
fn domain_errors_describe_themselves() {
    assert_eq!(DomainError::AuthenticationFailed.message(), "Authentication failed");
    assert_eq!(DomainError::InvalidCredentials.message(), "Invalid credentials");
    assert_eq!(DomainError::WeakPassword.message(), "Weak password (minimum 8 characters required)");
    assert_eq!(DomainError::EmptyDisplayName.message(), "Empty display name");
    assert_eq!(DomainError::InvalidActivityId.message(), "Invalid activity ID");
    assert_eq!(
        DomainError::Repository(RepositoryError::NotFound).message(),
        "Repository error: Not found"
    );
    assert_eq!(
        DomainError::Repository(RepositoryError::DatabaseError("boom".to_string())).message(),
        "Repository error: Database error: boom"
    );
}

#[test]
fn a_repository_error_becomes_a_domain_error() {
    assert!(matches!(
        DomainError::from(RepositoryError::NotFound),
        DomainError::Repository(RepositoryError::NotFound)
    ));
    assert!(matches!(
        DomainError::from(RepositoryError::DatabaseError("x".to_string())),
        DomainError::Repository(RepositoryError::DatabaseError(ref text)) if text == "x"
    ));
}
