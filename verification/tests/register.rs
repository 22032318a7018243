use auth_core::credential::HashedPassword;
use auth_core::error::{DomainError, RepositoryError};
use auth_core::login::LoginUsecase;
use auth_core::password::{Argon2PasswordHasher, PasswordHasher};
use auth_core::register::{RegisterUserUsecase, RegistrationAction, RegistrationEvent, RegistrationState};
use auth_core::store::MemoryStore;
use auth_core::token::JwtTokenGenerator;
use auth_core::user::{ActivityId, User};

fn usecase() -> RegisterUserUsecase<Argon2PasswordHasher, JwtTokenGenerator> {
    RegisterUserUsecase::new(
        Argon2PasswordHasher::new(),
        JwtTokenGenerator::new("testtoken".to_string()),
        "example.com".to_string(),
    )
}

fn login() -> LoginUsecase<Argon2PasswordHasher, JwtTokenGenerator> {
    LoginUsecase::new(Argon2PasswordHasher::new(), JwtTokenGenerator::new("testtoken".to_string()))
}

fn begin(display_name: &str) -> RegistrationState {
    RegistrationState::begin(
        "example.com",
        "alice",
        display_name.to_string(),
        "longenough1".to_string(),
        "a@x.com".to_string(),
    )
    .0
}

fn alice() -> User {
    User::new(7, ActivityId::for_local_user("example.com", "alice"), "Alice".to_string(), None).unwrap()
}

fn is_out_of_turn(action: &RegistrationAction) -> bool {
    match action {
        RegistrationAction::Fail(DomainError::Repository(RepositoryError::DatabaseError(text))) => {
            text == "Unexpected event"
        }
        _ => false,
    }
}

#[test]
fn a_registration_begins_by_deriving_the_identifier_and_asking_for_the_hash() {
    let (state, action) = RegistrationState::begin(
        "example.com",
        "alice",
        "Alice".to_string(),
        "longenough1".to_string(),
        "a@x.com".to_string(),
    );
    match state {
        RegistrationState::IdentifierDerived { activity_id, display_name, email } => {
            assert_eq!(activity_id.as_str(), "https://example.com/users/alice");
            assert_eq!(display_name, "Alice");
            assert_eq!(email, "a@x.com");
        }
        other => panic!("unexpected state: {:?}", other),
    }
    assert!(matches!(action, RegistrationAction::HashPassword { ref password } if password == "longenough1"));
}

#[test]
fn the_derived_identifier_is_well_formed_whatever_the_host() {
    for (host, name) in [("", ""), ("a/b", "x y"), ("http://h", "?"), ("例.jp", "テスト")] {
        let id = ActivityId::for_local_user(host, name);
        assert_eq!(id.as_str(), format!("https://{}/users/{}", host, name));
        assert!(ActivityId::new(id.as_str().to_string()).is_ok());
    }
}

#[test]
fn a_registration_goes_through_its_steps() {
    let state = begin("Alice");
    let (state, action) =
        state.step(RegistrationEvent::PasswordHashed(Ok(HashedPassword::new("the-hash".to_string()))));
    assert!(matches!(state, RegistrationState::Hashed));
    match action {
        RegistrationAction::Persist { activity_id, display_name, password_hash, email } => {
            assert_eq!(activity_id.as_str(), "https://example.com/users/alice");
            assert_eq!(display_name, "Alice");
            assert_eq!(password_hash.as_str(), "the-hash");
            assert_eq!(email, "a@x.com");
        }
        other => panic!("unexpected action: {:?}", other),
    }
    let (state, action) = state.step(RegistrationEvent::Persisted(Ok(alice())));
    assert!(matches!(state, RegistrationState::Persisted { ref user } if user.id().as_uuid() == 7));
    assert!(matches!(action, RegistrationAction::IssueToken { ref user } if user.display_name() == "Alice"));
    let (state, action) = state.step(RegistrationEvent::TokenGenerated(Ok("a.b.c".to_string())));
    assert!(matches!(state, RegistrationState::TokenIssued));
    match action {
        RegistrationAction::Succeed(result) => {
            assert_eq!(result.token, "a.b.c");
            assert_eq!(result.user.id().as_uuid(), 7);
        }
        other => panic!("unexpected action: {:?}", other),
    }
}

#[test]
fn a_weak_password_surfaces_as_it_is() {
    let (state, action) = begin("Alice").step(RegistrationEvent::PasswordHashed(Err(DomainError::WeakPassword)));
    assert!(matches!(state, RegistrationState::Failed));
    assert!(matches!(action, RegistrationAction::Fail(DomainError::WeakPassword)));
    let (_, action) = begin("").step(RegistrationEvent::PasswordHashed(Err(DomainError::WeakPassword)));
    assert!(matches!(action, RegistrationAction::Fail(DomainError::WeakPassword)));
}

#[test]
fn an_empty_display_name_ends_the_registration_before_anything_is_stored() {
    let (state, action) =
        begin("").step(RegistrationEvent::PasswordHashed(Ok(HashedPassword::new("the-hash".to_string()))));
    assert!(matches!(state, RegistrationState::Failed));
    assert!(matches!(action, RegistrationAction::Fail(DomainError::EmptyDisplayName)));
}

#[test]
fn a_conflict_surfaces_as_a_conflict() {
    let (state, _) =
        begin("Alice").step(RegistrationEvent::PasswordHashed(Ok(HashedPassword::new("the-hash".to_string()))));
    let (state, action) = state.step(RegistrationEvent::Persisted(Err(RepositoryError::Conflict)));
    assert!(matches!(state, RegistrationState::Failed));
    assert!(matches!(action, RegistrationAction::Fail(DomainError::Repository(RepositoryError::Conflict))));
}

#[test]
fn faults_of_the_storage_and_of_the_generator_are_passed_on() {
    let (state, _) =
        begin("Alice").step(RegistrationEvent::PasswordHashed(Ok(HashedPassword::new("the-hash".to_string()))));
    let (_, action) =
        state.step(RegistrationEvent::Persisted(Err(RepositoryError::DatabaseError("down".to_string()))));
    assert!(matches!(
        action,
        RegistrationAction::Fail(DomainError::Repository(RepositoryError::DatabaseError(ref text))) if text == "down"
    ));

    let (state, _) =
        begin("Alice").step(RegistrationEvent::PasswordHashed(Ok(HashedPassword::new("the-hash".to_string()))));
    let (state, _) = state.step(RegistrationEvent::Persisted(Ok(alice())));
    let (state, action) = state.step(RegistrationEvent::TokenGenerated(Err(DomainError::InvalidCredentials)));
    assert!(matches!(state, RegistrationState::Failed));
    assert!(matches!(action, RegistrationAction::Fail(DomainError::InvalidCredentials)));
}

#[test]
fn what_was_not_asked_for_ends_the_registration() {
    let (state, action) = begin("Alice").step(RegistrationEvent::Persisted(Ok(alice())));
    assert!(matches!(state, RegistrationState::Failed));
    assert!(is_out_of_turn(&action));
    let (_, action) = RegistrationState::Hashed.step(RegistrationEvent::TokenGenerated(Ok("t".to_string())));
    assert!(is_out_of_turn(&action));
    let (_, action) = RegistrationState::TokenIssued.step(RegistrationEvent::Persisted(Ok(alice())));
    assert!(is_out_of_turn(&action));
    let (_, action) = RegistrationState::Failed
        .step(RegistrationEvent::PasswordHashed(Ok(HashedPassword::new("h".to_string()))));
    assert!(is_out_of_turn(&action));
}

#[test]
fn the_usecase_does_what_the_registration_asks_of_the_policy_and_the_generator() {
    let usecase = usecase();
    assert_eq!(usecase.host(), "example.com");
    assert!(matches!(
        usecase.hash_password("short"),
        RegistrationEvent::PasswordHashed(Err(DomainError::WeakPassword))
    ));
    match usecase.hash_password("longenough1") {
        RegistrationEvent::PasswordHashed(Ok(hash)) => {
            assert_eq!(Argon2PasswordHasher::new().verify("longenough1", &hash).unwrap(), true)
        }
        other => panic!("unexpected event: {:?}", other),
    }
    match usecase.issue_token(&alice()) {
        RegistrationEvent::TokenGenerated(Ok(token)) => assert_eq!(token.split('.').count(), 3),
        other => panic!("unexpected event: {:?}", other),
    }
}

#[test]
fn registering_alice_in_an_empty_store_succeeds() {
    let mut store = MemoryStore::new("example.com".to_string());
    let result = usecase()
        .create_user(
            &mut store,
            "alice".to_string(),
            "Alice".to_string(),
            "longenough1".to_string(),
            "a@x.com".to_string(),
        )
        .unwrap();
    assert_eq!(result.user.activity_id().as_str(), "https://example.com/users/alice");
    assert_eq!(result.user.display_name(), "Alice");
    assert_eq!(result.user.icon_url(), None);
    assert_eq!(result.token.split('.').count(), 3);
    assert_eq!(store.len(), 1);
    let credential = store.get_credential("alice").unwrap();
    assert_eq!(credential.id(), result.user.id().as_uuid());
    assert_ne!(credential.password_hash().as_str(), "longenough1");
}

#[test]
fn alice_logs_in_right_after_her_registration() {
    let mut store = MemoryStore::new("example.com".to_string());
    let registered = usecase()
        .create_user(
            &mut store,
            "alice".to_string(),
            "Alice".to_string(),
            "longenough1".to_string(),
            "a@x.com".to_string(),
        )
        .unwrap();
    let result = login().login(&store, "alice".to_string(), "longenough1".to_string()).unwrap();
    assert_eq!(result.user.id().as_uuid(), registered.user.id().as_uuid());
    assert_eq!(result.user.activity_id().as_str(), registered.user.activity_id().as_str());
    assert_eq!(result.user.display_name(), registered.user.display_name());
    assert_eq!(result.token.split('.').count(), 3);

    let wrong = login().login(&store, "alice".to_string(), "wrong".to_string());
    assert!(matches!(wrong, Err(DomainError::AuthenticationFailed)));
}

#[test]
fn registering_alice_twice_is_a_conflict_and_one_alice_remains() {
    let mut store = MemoryStore::new("example.com".to_string());
    let first = usecase()
        .create_user(
            &mut store,
            "alice".to_string(),
            "Alice".to_string(),
            "longenough1".to_string(),
            "a@x.com".to_string(),
        )
        .unwrap();
    let again = usecase().create_user(
        &mut store,
        "alice".to_string(),
        "Alice Again".to_string(),
        "longenough2".to_string(),
        "other@x.com".to_string(),
    );
    assert!(matches!(again, Err(DomainError::Repository(RepositoryError::Conflict))));
    assert_eq!(store.len(), 1);
    assert_eq!(store.get_credential("alice").unwrap().id(), first.user.id().as_uuid());
    assert_eq!(store.find_by_id(first.user.id().as_uuid()).unwrap().unwrap().display_name(), "Alice");
    // the first password still is the one that lets alice in
    assert!(login().login(&store, "alice".to_string(), "longenough1".to_string()).is_ok());
}

#[test]
fn registering_with_a_used_email_is_a_conflict_and_nothing_is_added() {
    let mut store = MemoryStore::new("example.com".to_string());
    usecase()
        .create_user(
            &mut store,
            "alice".to_string(),
            "Alice".to_string(),
            "longenough1".to_string(),
            "a@x.com".to_string(),
        )
        .unwrap();
    let again = usecase().create_user(
        &mut store,
        "bob".to_string(),
        "Bob".to_string(),
        "longenough2".to_string(),
        "a@x.com".to_string(),
    );
    assert!(matches!(again, Err(DomainError::Repository(RepositoryError::Conflict))));
    assert_eq!(store.len(), 1);
    assert!(matches!(store.get_credential("bob"), Err(RepositoryError::NotFound)));
}

#[test]
fn registering_with_a_weak_password_or_an_empty_name_stores_nothing() {
    let mut store = MemoryStore::new("example.com".to_string());
    let weak = usecase().create_user(
        &mut store,
        "alice".to_string(),
        "Alice".to_string(),
        "short".to_string(),
        "a@x.com".to_string(),
    );
    assert!(matches!(weak, Err(DomainError::WeakPassword)));
    let both = usecase().create_user(
        &mut store,
        "alice".to_string(),
        String::new(),
        "short".to_string(),
        "a@x.com".to_string(),
    );
    assert!(matches!(both, Err(DomainError::WeakPassword)));
    let nameless = usecase().create_user(
        &mut store,
        "alice".to_string(),
        String::new(),
        "longenough1".to_string(),
        "a@x.com".to_string(),
    );
    assert!(matches!(nameless, Err(DomainError::EmptyDisplayName)));
    assert_eq!(store.len(), 0);
}

#[test]
fn a_failure_of_the_generator_comes_after_the_account_is_stored() {
    let usecase = RegisterUserUsecase::new(
        Argon2PasswordHasher::new(),
        JwtTokenGenerator::with_expiration("testtoken".to_string(), i64::MIN),
        "example.com".to_string(),
    );
    let mut store = MemoryStore::new("example.com".to_string());
    let result = usecase.create_user(
        &mut store,
        "alice".to_string(),
        "Alice".to_string(),
        "longenough1".to_string(),
        "a@x.com".to_string(),
    );
    assert!(matches!(result, Err(DomainError::Repository(RepositoryError::DatabaseError(_)))));
    assert_eq!(store.len(), 1);
}
