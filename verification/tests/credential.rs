use auth_core::credential::{Credential, HashedPassword, Timestamp};
use auth_core::error::DomainError;
use auth_core::user::ActivityId;

fn alice() -> ActivityId {
    ActivityId::new("https://example.com/users/alice".to_string()).unwrap()
}

#[test]
fn hashed_password_wraps_the_given_text() {
    let hash = HashedPassword::new("$argon2id$v=19$m=19456,t=2,p=1$abc$def".to_string());
    assert_eq!(hash.as_str(), "$argon2id$v=19$m=19456,t=2,p=1$abc$def");
    assert_eq!(hash.clone().as_str(), hash.as_str());
}

#[test]
fn new_credential_is_created_and_updated_at_one_moment() {
    let credential = Credential::new(42, alice(), HashedPassword::new("h".to_string()));
    assert_eq!(credential.id(), 42);
    assert_eq!(credential.user_id().as_str(), "https://example.com/users/alice");
    assert_eq!(credential.password_hash().as_str(), "h");
    assert_eq!(credential.created_at(), credential.updated_at());
    assert!(credential.created_at().secs > 1_600_000_000);
}

#[test]
fn reconstructed_credential_holds_exactly_its_parts() {
    let created = Timestamp { secs: 1_700_000_000, nanos: 123_456_789 };
    let updated = Timestamp { secs: 1_700_000_500, nanos: 1 };
    let credential =
        Credential::reconstruct(7, alice(), HashedPassword::new("h".to_string()), created, updated);
    assert_eq!(credential.id(), 7);
    assert_eq!(credential.user_id().as_str(), "https://example.com/users/alice");
    assert_eq!(credential.password_hash().as_str(), "h");
    assert_eq!(credential.created_at(), created);
    assert_eq!(credential.updated_at(), updated);
    let copy = credential.clone();
    assert_eq!(copy.id(), 7);
    assert_eq!(copy.updated_at(), updated);
}

#[test]
fn validate_turns_a_mismatch_into_an_authentication_failure() {
    let credential = Credential::new(1, alice(), HashedPassword::new("h".to_string()));
    assert!(credential.validate(true).is_ok());
    assert!(matches!(credential.validate(false), Err(DomainError::AuthenticationFailed)));
}

#[test]
fn change_password_at_replaces_the_hash_and_the_time_of_update_only() {
    let created = Timestamp { secs: 10, nanos: 0 };
    let mut credential =
        Credential::reconstruct(7, alice(), HashedPassword::new("old".to_string()), created, created);
    let later = Timestamp { secs: 99, nanos: 5 };
    credential.change_password_at(HashedPassword::new("new".to_string()), later);
    assert_eq!(credential.password_hash().as_str(), "new");
    assert_eq!(credential.updated_at(), later);
    assert_eq!(credential.created_at(), created);
    assert_eq!(credential.id(), 7);
    assert_eq!(credential.user_id().as_str(), "https://example.com/users/alice");
}

#[test]
fn change_password_keeps_the_time_of_creation() {
    let created = Timestamp { secs: 10, nanos: 0 };
    let mut credential =
        Credential::reconstruct(7, alice(), HashedPassword::new("old".to_string()), created, created);
    credential.change_password(HashedPassword::new("new".to_string()));
    assert_eq!(credential.password_hash().as_str(), "new");
    assert_eq!(credential.created_at(), created);
    assert!(credential.updated_at().secs > 1_600_000_000);
    assert_eq!(credential.id(), 7);
}
