//! The login protocol: fetch the credential, check the password, fetch the
//! user, issue the token.
//!
//! The protocol is a machine that is told what has happened and answers what
//! is to be done next. What it asks for is done elsewhere: by a storage
//! gateway, by the password policy, by the token generator.

use vstd::prelude::*;

use crate::credential::{Credential, CredentialView, HashedPassword};
use crate::error::{outcome, DomainError, DomainFault, RepositoryError, RepositoryFault};
use crate::password::PasswordHasher;
use crate::store::{account_with, lemma_key_names_one, lemma_position_of, paired, position_of,
    AccountKey, AccountView, MemoryStore};
use crate::token::{Token, TokenGenerator};
use crate::user::{local_activity_id, User, UserView};

verus! {

/// What a successful login or registration hands out.
#[derive(Debug)]
pub struct LoginResult {
    pub token: Token,
    pub user: User,
}

/// Mathematical value of a [`LoginResult`].
pub struct LoginResultView {
    pub token: Seq<char>,
    pub user: UserView,
}

impl View for LoginResult {
    type V = LoginResultView;

    open spec fn view(&self) -> LoginResultView {
        LoginResultView { token: self.token@, user: self.user@ }
    }
}

/// Where a login stands.
#[derive(Debug)]
pub enum LoginState {
    /// The credential has been asked for.
    Start { password: String },
    /// The credential is here, and the check of the password has been asked
    /// for.
    CredentialFetched { credential: Credential },
    /// The password is the right one, and the user has been asked for.
    Verified,
    /// The user is here, and the token has been asked for.
    UserFetched { user: User },
    /// The login has succeeded.
    TokenIssued,
    /// The login has failed.
    Failed,
}

/// What a login is told.
#[derive(Debug)]
pub enum LoginEvent {
    CredentialFetched(Result<Credential, RepositoryError>),
    PasswordChecked(Result<bool, DomainError>),
    UserFetched(Result<Option<User>, RepositoryError>),
    TokenGenerated(Result<Token, DomainError>),
}

/// What a login asks for, or how it ends.
#[derive(Debug)]
pub enum LoginAction {
    FetchCredential { login_id: String },
    VerifyPassword { password: String, hash: HashedPassword },
    FetchUser { id: u128 },
    IssueToken { user: User },
    Succeed(LoginResult),
    Fail(DomainError),
}

/// Mathematical value of a [`LoginState`].
pub enum LoginStateView {
    Start { password: Seq<char> },
    CredentialFetched { credential: CredentialView },
    Verified,
    UserFetched { user: UserView },
    TokenIssued,
    Failed,
}

/// Mathematical value of a [`LoginEvent`].
pub enum LoginEventView {
    CredentialFetched(Result<CredentialView, RepositoryFault>),
    PasswordChecked(Result<bool, DomainFault>),
    UserFetched(Result<Option<UserView>, RepositoryFault>),
    TokenGenerated(Result<Seq<char>, DomainFault>),
}

/// Mathematical value of a [`LoginAction`].
pub enum LoginActionView {
    FetchCredential { login_id: Seq<char> },
    VerifyPassword { password: Seq<char>, hash: Seq<char> },
    FetchUser { id: u128 },
    IssueToken { user: UserView },
    Succeed(LoginResultView),
    Fail(DomainFault),
}

/// The mathematical value of the outcome of a lookup of a user.
pub open spec fn found_user(found: Result<Option<User>, RepositoryError>) -> Result<
    Option<UserView>,
    RepositoryFault,
> {
    match found {
        Ok(Some(user)) => Ok(Some(user@)),
        Ok(None) => Ok(None),
        Err(error) => Err(error@),
    }
}

impl View for LoginState {
    type V = LoginStateView;

    open spec fn view(&self) -> LoginStateView {
        match self {
            LoginState::Start { password } => LoginStateView::Start { password: password@ },
            LoginState::CredentialFetched { credential } => LoginStateView::CredentialFetched {
                credential: credential@,
            },
            LoginState::Verified => LoginStateView::Verified,
            LoginState::UserFetched { user } => LoginStateView::UserFetched { user: user@ },
            LoginState::TokenIssued => LoginStateView::TokenIssued,
            LoginState::Failed => LoginStateView::Failed,
        }
    }
}

impl View for LoginEvent {
    type V = LoginEventView;

    open spec fn view(&self) -> LoginEventView {
        match self {
            LoginEvent::CredentialFetched(fetched) => LoginEventView::CredentialFetched(
                outcome(*fetched),
            ),
            LoginEvent::PasswordChecked(checked) => LoginEventView::PasswordChecked(
                outcome(*checked),
            ),
            LoginEvent::UserFetched(found) => LoginEventView::UserFetched(found_user(*found)),
            LoginEvent::TokenGenerated(issued) => LoginEventView::TokenGenerated(outcome(*issued)),
        }
    }
}

impl View for LoginAction {
    type V = LoginActionView;

    open spec fn view(&self) -> LoginActionView {
        match self {
            LoginAction::FetchCredential { login_id } => LoginActionView::FetchCredential {
                login_id: login_id@,
            },
            LoginAction::VerifyPassword { password, hash } => LoginActionView::VerifyPassword {
                password: password@,
                hash: hash@,
            },
            LoginAction::FetchUser { id } => LoginActionView::FetchUser { id: *id },
            LoginAction::IssueToken { user } => LoginActionView::IssueToken { user: user@ },
            LoginAction::Succeed(result) => LoginActionView::Succeed(result@),
            LoginAction::Fail(error) => LoginActionView::Fail(error@),
        }
    }
}

/// The failure with which a protocol answers what it did not ask for.
pub open spec fn out_of_turn() -> DomainFault {
    DomainFault::Repository(RepositoryFault::DatabaseError("Unexpected event"@))
}

/// How a login starts: it remembers the password and asks for the
/// credential of `login_id`.
pub open spec fn login_begin(login_id: Seq<char>, password: Seq<char>) -> (
    LoginStateView,
    LoginActionView,
) {
    (LoginStateView::Start { password }, LoginActionView::FetchCredential { login_id })
}

/// How a login goes on. A credential that is not found and a password that
/// does not match end it with the same failure. What the login did not ask
/// for ends it too.
pub open spec fn login_step(state: LoginStateView, event: LoginEventView) -> (
    LoginStateView,
    LoginActionView,
) {
    match (state, event) {
        (
            LoginStateView::Start { password },
            LoginEventView::CredentialFetched(Ok(credential)),
        ) => (
            LoginStateView::CredentialFetched { credential },
            LoginActionView::VerifyPassword { password, hash: credential.password_hash },
        ),
        (
            LoginStateView::Start { .. },
            LoginEventView::CredentialFetched(Err(RepositoryFault::NotFound)),
        ) => (LoginStateView::Failed, LoginActionView::Fail(DomainFault::AuthenticationFailed)),
        (LoginStateView::Start { .. }, LoginEventView::CredentialFetched(Err(fault))) => (
            LoginStateView::Failed,
            LoginActionView::Fail(DomainFault::Repository(fault)),
        ),
        (
            LoginStateView::CredentialFetched { credential },
            LoginEventView::PasswordChecked(Ok(true)),
        ) => (LoginStateView::Verified, LoginActionView::FetchUser { id: credential.id }),
        (LoginStateView::CredentialFetched { .. }, LoginEventView::PasswordChecked(Ok(false))) => (
            LoginStateView::Failed,
            LoginActionView::Fail(DomainFault::AuthenticationFailed),
        ),
        (LoginStateView::CredentialFetched { .. }, LoginEventView::PasswordChecked(Err(fault))) => (
            LoginStateView::Failed,
            LoginActionView::Fail(fault),
        ),
        (LoginStateView::Verified, LoginEventView::UserFetched(Ok(Some(user)))) => (
            LoginStateView::UserFetched { user },
            LoginActionView::IssueToken { user },
        ),
        (LoginStateView::Verified, LoginEventView::UserFetched(Ok(None))) => (
            LoginStateView::Failed,
            LoginActionView::Fail(DomainFault::Repository(RepositoryFault::NotFound)),
        ),
        (LoginStateView::Verified, LoginEventView::UserFetched(Err(fault))) => (
            LoginStateView::Failed,
            LoginActionView::Fail(DomainFault::Repository(fault)),
        ),
        (LoginStateView::UserFetched { user }, LoginEventView::TokenGenerated(Ok(token))) => (
            LoginStateView::TokenIssued,
            LoginActionView::Succeed(LoginResultView { token, user }),
        ),
        (LoginStateView::UserFetched { .. }, LoginEventView::TokenGenerated(Err(fault))) => (
            LoginStateView::Failed,
            LoginActionView::Fail(fault),
        ),
        _ => (LoginStateView::Failed, LoginActionView::Fail(out_of_turn())),
    }
}

/// The failure that answers an event out of turn.
pub fn unexpected_event() -> (error: DomainError)
    ensures
        error@ == out_of_turn(),
{
    DomainError::Repository(RepositoryError::DatabaseError("Unexpected event".to_string()))
}

impl LoginState {
    /// Starts a login.
    pub fn begin(login_id: String, password: String) -> (next: (LoginState, LoginAction))
        ensures
            (next.0@, next.1@) == login_begin(login_id@, password@),
    {
        (LoginState::Start { password }, LoginAction::FetchCredential { login_id })
    }

    /// Takes the login one step on: from where it stands and what it is
    /// told, to where it then stands and what it asks for.
    pub fn step(self, event: LoginEvent) -> (next: (LoginState, LoginAction))
        ensures
            (next.0@, next.1@) == login_step(self@, event@),
    {
        match (self, event) {
            (LoginState::Start { password }, LoginEvent::CredentialFetched(fetched)) => {
                match fetched {
                    Ok(credential) => {
                        let hash = credential.password_hash().clone();
                        (
                            LoginState::CredentialFetched { credential },
                            LoginAction::VerifyPassword { password, hash },
                        )
                    },
                    Err(RepositoryError::NotFound) => (
                        LoginState::Failed,
                        LoginAction::Fail(DomainError::AuthenticationFailed),
                    ),
                    Err(error) => (
                        LoginState::Failed,
                        LoginAction::Fail(DomainError::Repository(error)),
                    ),
                }
            },
            (LoginState::CredentialFetched { credential }, LoginEvent::PasswordChecked(checked)) => {
                match checked {
                    Ok(is_valid) => match credential.validate(is_valid) {
                        Ok(()) => (
                            LoginState::Verified,
                            LoginAction::FetchUser { id: credential.id() },
                        ),
                        Err(error) => (LoginState::Failed, LoginAction::Fail(error)),
                    },
                    Err(error) => (LoginState::Failed, LoginAction::Fail(error)),
                }
            },
            (LoginState::Verified, LoginEvent::UserFetched(found)) => {
                match found {
                    Ok(Some(user)) => {
                        let subject = user.clone();
                        (LoginState::UserFetched { user }, LoginAction::IssueToken { user: subject })
                    },
                    Ok(None) => (
                        LoginState::Failed,
                        LoginAction::Fail(DomainError::Repository(RepositoryError::NotFound)),
                    ),
                    Err(error) => (
                        LoginState::Failed,
                        LoginAction::Fail(DomainError::Repository(error)),
                    ),
                }
            },
            (LoginState::UserFetched { user }, LoginEvent::TokenGenerated(issued)) => {
                match issued {
                    Ok(token) => (
                        LoginState::TokenIssued,
                        LoginAction::Succeed(LoginResult { token, user }),
                    ),
                    Err(error) => (LoginState::Failed, LoginAction::Fail(error)),
                }
            },
            _ => (LoginState::Failed, LoginAction::Fail(unexpected_event())),
        }
    }
}

/// Whom a login lets in, before any token is issued: the user whose
/// credential is found under `activity_id` and whose password `hasher`
/// accepts. An unknown identifier and a wrong password are the same failure.
pub open spec fn login_decision<P: PasswordHasher>(
    hasher: P,
    accounts: Seq<AccountView>,
    activity_id: Seq<char>,
    password: Seq<char>,
) -> Result<UserView, DomainFault> {
    match account_with(accounts, AccountKey::ActivityId(activity_id)) {
        None => Err(DomainFault::AuthenticationFailed),
        Some(account) => match hasher.verdict(password, account.credential.password_hash) {
            Ok(true) => Ok(account.user),
            Ok(false) => Err(DomainFault::AuthenticationFailed),
            Err(fault) => Err(fault),
        },
    }
}

/// A login under an identifier that no account has and a login under a
/// known identifier with a password that the policy does not accept end with
/// one and the same failure.
pub proof fn lemma_unknown_user_and_wrong_password_alike<P: PasswordHasher>(
    hasher: P,
    accounts: Seq<AccountView>,
    unknown_id: Seq<char>,
    any_password: Seq<char>,
    known_id: Seq<char>,
    wrong_password: Seq<char>,
)
    requires
        account_with(accounts, AccountKey::ActivityId(unknown_id)) is None,
        account_with(accounts, AccountKey::ActivityId(known_id)) is Some,
        hasher.verdict(
            wrong_password,
            account_with(accounts, AccountKey::ActivityId(known_id))->Some_0.credential.password_hash,
        ) == Ok::<bool, DomainFault>(false),
    ensures
        login_decision(hasher, accounts, unknown_id, any_password) == login_decision(
            hasher,
            accounts,
            known_id,
            wrong_password,
        ),
        login_decision(hasher, accounts, unknown_id, any_password) == Err::<UserView, DomainFault>(
            DomainFault::AuthenticationFailed,
        ),
{
}

/// In the protocol, a credential that is not found and a password that does
/// not match lead to the same state and to the same failure.
pub proof fn lemma_steps_fail_alike(password: Seq<char>, credential: CredentialView)
    ensures
        login_step(
            LoginStateView::Start { password },
            LoginEventView::CredentialFetched(Err(RepositoryFault::NotFound)),
        ) == login_step(
            LoginStateView::CredentialFetched { credential },
            LoginEventView::PasswordChecked(Ok(false)),
        ),
        login_step(
            LoginStateView::Start { password },
            LoginEventView::CredentialFetched(Err(RepositoryFault::NotFound)),
        ) == (LoginStateView::Failed, LoginActionView::Fail(DomainFault::AuthenticationFailed)),
{
}

/// The login protocol over a password policy and a token generator.
pub struct LoginUsecase<P: PasswordHasher, T: TokenGenerator> {
    password_hasher: P,
    token_generator: T,
}

impl<P: PasswordHasher, T: TokenGenerator> LoginUsecase<P, T> {
    /// The password policy of the protocol.
    pub closed spec fn password_hasher(&self) -> P {
        self.password_hasher
    }

    /// The token generator of the protocol.
    pub closed spec fn token_generator(&self) -> T {
        self.token_generator
    }

    pub fn new(password_hasher: P, token_generator: T) -> (made: Self)
        ensures
            made.password_hasher() == password_hasher,
            made.token_generator() == token_generator,
    {
        LoginUsecase { password_hasher, token_generator }
    }

    /// Checks a password against a hash, as a login asks for it.
    pub fn check_password(&self, password: &str, hash: &HashedPassword) -> (event: LoginEvent)
        ensures
            event@ == LoginEventView::PasswordChecked(
                self.password_hasher().verdict(password@, hash@),
            ),
    {
        LoginEvent::PasswordChecked(self.password_hasher.verify(password, hash))
    }

    /// Issues a token for a user, as a login asks for it.
    pub fn issue_token(&self, user: &User) -> (event: LoginEvent)
        ensures
            event matches LoginEvent::TokenGenerated(issued) && (issued is Ok
                ==> self.token_generator().issues(user@, issued->Ok_0@)) && (issued is Err
                ==> self.token_generator().refuses(user@, issued->Err_0@)),
    {
        LoginEvent::TokenGenerated(self.token_generator.generate(user))
    }

    /// Runs a login against the accounts of `store`. It fails exactly as
    /// `login_decision` says; where that lets a user in, the result holds
    /// this user and a token issued for it, or the failure of the token
    /// generator.
    pub fn login(&self, store: &MemoryStore, user_id: String, password: String) -> (result: Result<
        LoginResult,
        DomainError,
    >)
        ensures
            match login_decision(
                self.password_hasher(),
                store@.accounts,
                local_activity_id(store@.host, user_id@),
                password@,
            ) {
                Ok(user) => match result {
                    Ok(session) => session@.user == user && self.token_generator().issues(
                        user,
                        session@.token,
                    ),
                    Err(error) => self.token_generator().refuses(user, error@),
                },
                Err(fault) => outcome(result) == Err::<LoginResultView, DomainFault>(fault),
            },
    {
        let ghost activity_id = local_activity_id(store@.host, user_id@);
        let ghost accounts = store@.accounts;
        proof {
            use_type_invariant(store);
        }
        let (state, action) = LoginState::begin(user_id, password);
        let fetched = match action {
            LoginAction::FetchCredential { login_id } => store.get_credential(login_id.as_str()),
            _ => Err(RepositoryError::NotFound),
        };
        let (state, action) = state.step(LoginEvent::CredentialFetched(fetched));
        let checked = match action {
            LoginAction::VerifyPassword { password, hash } => self.check_password(
                password.as_str(),
                &hash,
            ),
            LoginAction::Fail(error) => {
                return Err(error);
            },
            _ => {
                return Err(unexpected_event());
            },
        };
        let (state, action) = state.step(checked);
        proof {
            lemma_position_of(accounts, AccountKey::ActivityId(activity_id), 0);
            let at = position_of(accounts, AccountKey::ActivityId(activity_id), 0);
            if at < accounts.len() {
                assert(paired(accounts[at]));
                lemma_key_names_one(accounts, AccountKey::Id(accounts[at].user.id), at);
            }
        }
        let found = match action {
            LoginAction::FetchUser { id } => store.find_by_id(id),
            LoginAction::Fail(error) => {
                return Err(error);
            },
            _ => {
                return Err(unexpected_event());
            },
        };
        let (state, action) = state.step(LoginEvent::UserFetched(found));
        let issued = match action {
            LoginAction::IssueToken { user } => self.issue_token(&user),
            LoginAction::Fail(error) => {
                return Err(error);
            },
            _ => {
                return Err(unexpected_event());
            },
        };
        let (_, action) = state.step(issued);
        match action {
            LoginAction::Succeed(result) => Ok(result),
            LoginAction::Fail(error) => Err(error),
            _ => Err(unexpected_event()),
        }
    }
}

} // verus!
