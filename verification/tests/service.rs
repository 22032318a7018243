use auth_core::credential::Timestamp;
use auth_core::handler::{
    login_reply, register_reply, LoginRequest, LoginResponse, RegisterRequest, Reply, ReplyBody,
    STATUS_BAD_REQUEST, STATUS_CREATED, STATUS_OK, STATUS_UNAUTHORIZED,
};
use auth_core::login::LoginUsecase;
use auth_core::password::{Argon2PasswordHasher, PasswordHasher};
use auth_core::register::RegisterUserUsecase;
use auth_core::store::MemoryStore;
use auth_core::token::JwtTokenGenerator;
use auth_core::user::ActivityId;
use uuid::Uuid;

const TEST_ID: &str = "00000000-0000-0000-0000-000000000001";
const INSTANCE_HOST: &str = "example.com";

fn setup_test_store() -> MemoryStore {
    let test_id = Uuid::parse_str(TEST_ID).unwrap();
    let password_hasher = Argon2PasswordHasher::new();
    let password_hash = password_hasher.hash("test_password").unwrap();
    let mut store = MemoryStore::new(INSTANCE_HOST.to_string());
    store
        .register_as(
            test_id.as_u128(),
            Timestamp { secs: 1_700_000_000, nanos: 0 },
            &ActivityId::for_local_user(INSTANCE_HOST, "test_user"),
            "テスト",
            password_hash,
            "test@example.com".to_string(),
        )
        .unwrap();
    store
}

fn login(store: &MemoryStore, request: LoginRequest) -> Reply {
    let usecase =
        LoginUsecase::new(Argon2PasswordHasher::new(), JwtTokenGenerator::new("testtoken".to_string()));
    login_reply(usecase.login(store, request.user_id, request.password), INSTANCE_HOST)
}

fn register(store: &mut MemoryStore, request: RegisterRequest) -> Reply {
    let usecase = RegisterUserUsecase::new(
        Argon2PasswordHasher::new(),
        JwtTokenGenerator::new("testtoken".to_string()),
        INSTANCE_HOST.to_string(),
    );
    register_reply(
        usecase.create_user(store, request.user_id, request.display_name, request.password, request.mail_address),
        INSTANCE_HOST,
    )
}

fn session(reply: Reply) -> LoginResponse {
    match reply.body {
        ReplyBody::Session(response) => response,
        ReplyBody::Message(text) => panic!("no session: {}", text),
    }
}

#[test]
fn test_login_positive() {
    let store = setup_test_store();

    let user_id = "test_user".to_string();
    let password = "test_password".to_string();
    let login_request = LoginRequest { user_id: user_id.clone(), password: password.clone() };

    let response = login(&store, login_request);

    assert_eq!(response.status, STATUS_OK);
    let login_response = session(response);
    assert_eq!(TEST_ID, login_response.user.id);
    assert_eq!(user_id, login_response.user.acct);
}

#[test]
fn test_login_invalid_user_negative() {
    let store = setup_test_store();

    let user_id = "invalid_user".to_string();
    let password = "test_password".to_string();
    let login_request = LoginRequest { user_id: user_id.clone(), password: password.clone() };

    let response = login(&store, login_request);

    assert_eq!(response.status, STATUS_UNAUTHORIZED);
}

#[test]
fn test_login_invalid_password_negative() {
    let store = setup_test_store();

    let user_id = "test_user".to_string();
    let password = "invalid_password".to_string();
    let login_request = LoginRequest { user_id: user_id.clone(), password: password.clone() };

    let response = login(&store, login_request);

    assert_eq!(response.status, STATUS_UNAUTHORIZED);
}

#[test]
fn test_register_positive() {
    let mut store = setup_test_store();

    let new_user_id = "new_user";
    let new_password = "new_password";
    let new_mail_adress = "new@example.com";
    let new_display_name = "テスト";
    let register_request = RegisterRequest {
        user_id: new_user_id.to_string(),
        password: new_password.to_string(),
        mail_address: new_mail_adress.to_string(),
        display_name: new_display_name.to_string(),
    };

    let response = register(&mut store, register_request);

    let status = response.status;
    if status != STATUS_CREATED {
        panic!("Expected CREATED but got {:?}. Error: {:?}", status, response.body);
    }
    assert_eq!(status, STATUS_CREATED);
    let login_response = session(response);
    assert_eq!(new_user_id, login_response.user.acct);
    assert_eq!("テスト", login_response.user.display_name);
    assert_eq!(store.len(), 2);
}

#[test]
fn test_register_duplicated_user_negative() {
    let mut store = setup_test_store();

    let new_user_id = "test_user";
    let new_password = "new_password";
    let new_mail_adress = "new@example.com";
    let new_display_name = "テスト";
    let register_request = RegisterRequest {
        user_id: new_user_id.to_string(),
        password: new_password.to_string(),
        mail_address: new_mail_adress.to_string(),
        display_name: new_display_name.to_string(),
    };

    let response = register(&mut store, register_request);
    assert_eq!(response.status, STATUS_BAD_REQUEST);
    assert_eq!(store.len(), 1);
}

#[test]
fn test_register_duplicated_email_negative() {
    let mut store = setup_test_store();

    let new_user_id = "new_user";
    let new_password = "new_password";
    let new_mail_adress = "test@example.com";
    let new_display_name = "テスト";
    let register_request = RegisterRequest {
        user_id: new_user_id.to_string(),
        password: new_password.to_string(),
        mail_address: new_mail_adress.to_string(),
        display_name: new_display_name.to_string(),
    };

    let response = register(&mut store, register_request);

    assert_eq!(response.status, STATUS_BAD_REQUEST);
    assert_eq!(store.len(), 1);
}
