//! The registration protocol: derive the activity identifier, hash the
//! password, store the user and its credential as one, issue the token.
//!
//! Like the login, the protocol is a machine that is told what has happened
//! and answers what is to be done next.

use vstd::prelude::*;

use crate::credential::HashedPassword;
use crate::error::{outcome, DomainError, DomainFault, RepositoryError, RepositoryFault};
use crate::login::{login_decision, out_of_turn, unexpected_event, LoginResult, LoginResultView};
use crate::password::{PasswordHasher, MIN_PASSWORD_LENGTH};
use crate::store::{account_with, consistent, lemma_key_names_one, nothing_in_the_way, AccountKey,
    AccountView, MemoryStore};
use crate::token::{Token, TokenGenerator};
use crate::user::{local_activity_id, ActivityId, User, UserView};

verus! {

/// Where a registration stands.
#[derive(Debug)]
pub enum RegistrationState {
    /// The activity identifier is derived, and the hash of the password has
    /// been asked for.
    IdentifierDerived { activity_id: ActivityId, display_name: String, email: String },
    /// The password is hashed, and the storing of the user and its
    /// credential has been asked for.
    Hashed,
    /// The user and its credential are stored, and the token has been asked
    /// for.
    Persisted { user: User },
    /// The registration has succeeded.
    TokenIssued,
    /// The registration has failed.
    Failed,
}

/// What a registration is told.
#[derive(Debug)]
pub enum RegistrationEvent {
    PasswordHashed(Result<HashedPassword, DomainError>),
    Persisted(Result<User, RepositoryError>),
    TokenGenerated(Result<Token, DomainError>),
}

/// What a registration asks for, or how it ends.
#[derive(Debug)]
pub enum RegistrationAction {
    HashPassword { password: String },
    /// Store the user and its credential, both or neither.
    Persist {
        activity_id: ActivityId,
        display_name: String,
        password_hash: HashedPassword,
        email: String,
    },
    IssueToken { user: User },
    Succeed(LoginResult),
    Fail(DomainError),
}

/// Mathematical value of a [`RegistrationState`].
pub enum RegistrationStateView {
    IdentifierDerived { activity_id: Seq<char>, display_name: Seq<char>, email: Seq<char> },
    Hashed,
    Persisted { user: UserView },
    TokenIssued,
    Failed,
}

/// Mathematical value of a [`RegistrationEvent`].
pub enum RegistrationEventView {
    PasswordHashed(Result<Seq<char>, DomainFault>),
    Persisted(Result<UserView, RepositoryFault>),
    TokenGenerated(Result<Seq<char>, DomainFault>),
}

/// Mathematical value of a [`RegistrationAction`].
pub enum RegistrationActionView {
    HashPassword { password: Seq<char> },
    Persist {
        activity_id: Seq<char>,
        display_name: Seq<char>,
        password_hash: Seq<char>,
        email: Seq<char>,
    },
    IssueToken { user: UserView },
    Succeed(LoginResultView),
    Fail(DomainFault),
}

impl View for RegistrationState {
    type V = RegistrationStateView;

    open spec fn view(&self) -> RegistrationStateView {
        match self {
            RegistrationState::IdentifierDerived { activity_id, display_name, email } => {
                RegistrationStateView::IdentifierDerived {
                    activity_id: activity_id@,
                    display_name: display_name@,
                    email: email@,
                }
            },
            RegistrationState::Hashed => RegistrationStateView::Hashed,
            RegistrationState::Persisted { user } => RegistrationStateView::Persisted {
                user: user@,
            },
            RegistrationState::TokenIssued => RegistrationStateView::TokenIssued,
            RegistrationState::Failed => RegistrationStateView::Failed,
        }
    }
}

impl View for RegistrationEvent {
    type V = RegistrationEventView;

    open spec fn view(&self) -> RegistrationEventView {
        match self {
            RegistrationEvent::PasswordHashed(hashed) => RegistrationEventView::PasswordHashed(
                outcome(*hashed),
            ),
            RegistrationEvent::Persisted(stored) => RegistrationEventView::Persisted(
                outcome(*stored),
            ),
            RegistrationEvent::TokenGenerated(issued) => RegistrationEventView::TokenGenerated(
                outcome(*issued),
            ),
        }
    }
}

impl View for RegistrationAction {
    type V = RegistrationActionView;

    open spec fn view(&self) -> RegistrationActionView {
        match self {
            RegistrationAction::HashPassword { password } => RegistrationActionView::HashPassword {
                password: password@,
            },
            RegistrationAction::Persist { activity_id, display_name, password_hash, email } => {
                RegistrationActionView::Persist {
                    activity_id: activity_id@,
                    display_name: display_name@,
                    password_hash: password_hash@,
                    email: email@,
                }
            },
            RegistrationAction::IssueToken { user } => RegistrationActionView::IssueToken {
                user: user@,
            },
            RegistrationAction::Succeed(result) => RegistrationActionView::Succeed(result@),
            RegistrationAction::Fail(error) => RegistrationActionView::Fail(error@),
        }
    }
}

/// How a registration starts: it derives the activity identifier of the
/// user on the service at `host`, and asks for the hash of the password.
pub open spec fn registration_begin(
    host: Seq<char>,
    user_id: Seq<char>,
    display_name: Seq<char>,
    password: Seq<char>,
    email: Seq<char>,
) -> (RegistrationStateView, RegistrationActionView) {
    (
        RegistrationStateView::IdentifierDerived {
            activity_id: local_activity_id(host, user_id),
            display_name,
            email,
        },
        RegistrationActionView::HashPassword { password },
    )
}

/// How a registration goes on. A failure of the hashing, of the storing or
/// of the token generator ends it with that failure, an empty display name
/// ends it before anything is stored, and so does what the registration did
/// not ask for.
pub open spec fn registration_step(state: RegistrationStateView, event: RegistrationEventView) -> (
    RegistrationStateView,
    RegistrationActionView,
) {
    match (state, event) {
        (
            RegistrationStateView::IdentifierDerived { activity_id, display_name, email },
            RegistrationEventView::PasswordHashed(Ok(password_hash)),
        ) => if display_name.len() == 0 {
            (
                RegistrationStateView::Failed,
                RegistrationActionView::Fail(DomainFault::EmptyDisplayName),
            )
        } else {
            (
                RegistrationStateView::Hashed,
                RegistrationActionView::Persist { activity_id, display_name, password_hash, email },
            )
        },
        (
            RegistrationStateView::IdentifierDerived { .. },
            RegistrationEventView::PasswordHashed(Err(fault)),
        ) => (RegistrationStateView::Failed, RegistrationActionView::Fail(fault)),
        (RegistrationStateView::Hashed, RegistrationEventView::Persisted(Ok(user))) => (
            RegistrationStateView::Persisted { user },
            RegistrationActionView::IssueToken { user },
        ),
        (RegistrationStateView::Hashed, RegistrationEventView::Persisted(Err(fault))) => (
            RegistrationStateView::Failed,
            RegistrationActionView::Fail(DomainFault::Repository(fault)),
        ),
        (
            RegistrationStateView::Persisted { user },
            RegistrationEventView::TokenGenerated(Ok(token)),
        ) => (
            RegistrationStateView::TokenIssued,
            RegistrationActionView::Succeed(LoginResultView { token, user }),
        ),
        (
            RegistrationStateView::Persisted { .. },
            RegistrationEventView::TokenGenerated(Err(fault)),
        ) => (RegistrationStateView::Failed, RegistrationActionView::Fail(fault)),
        _ => (RegistrationStateView::Failed, RegistrationActionView::Fail(out_of_turn())),
    }
}

impl RegistrationState {
    /// Starts a registration on the service at `host`.
    pub fn begin(
        host: &str,
        user_id: &str,
        display_name: String,
        password: String,
        email: String,
    ) -> (next: (RegistrationState, RegistrationAction))
        ensures
            (next.0@, next.1@) == registration_begin(
                host@,
                user_id@,
                display_name@,
                password@,
                email@,
            ),
    {
        let activity_id = ActivityId::for_local_user(host, user_id);
        (
            RegistrationState::IdentifierDerived { activity_id, display_name, email },
            RegistrationAction::HashPassword { password },
        )
    }

    /// Takes the registration one step on: from where it stands and what it
    /// is told, to where it then stands and what it asks for.
    pub fn step(self, event: RegistrationEvent) -> (next: (RegistrationState, RegistrationAction))
        ensures
            (next.0@, next.1@) == registration_step(self@, event@),
    {
        match (self, event) {
            (
                RegistrationState::IdentifierDerived { activity_id, display_name, email },
                RegistrationEvent::PasswordHashed(hashed),
            ) => {
                match hashed {
                    Ok(password_hash) => {
                        if display_name.as_str().is_empty() {
                            (
                                RegistrationState::Failed,
                                RegistrationAction::Fail(DomainError::EmptyDisplayName),
                            )
                        } else {
                            (
                                RegistrationState::Hashed,
                                RegistrationAction::Persist {
                                    activity_id,
                                    display_name,
                                    password_hash,
                                    email,
                                },
                            )
                        }
                    },
                    Err(error) => (RegistrationState::Failed, RegistrationAction::Fail(error)),
                }
            },
            (RegistrationState::Hashed, RegistrationEvent::Persisted(stored)) => {
                match stored {
                    Ok(user) => {
                        let subject = user.clone();
                        (
                            RegistrationState::Persisted { user },
                            RegistrationAction::IssueToken { user: subject },
                        )
                    },
                    Err(error) => (
                        RegistrationState::Failed,
                        RegistrationAction::Fail(DomainError::Repository(error)),
                    ),
                }
            },
            (RegistrationState::Persisted { user }, RegistrationEvent::TokenGenerated(issued)) => {
                match issued {
                    Ok(token) => (
                        RegistrationState::TokenIssued,
                        RegistrationAction::Succeed(LoginResult { token, user }),
                    ),
                    Err(error) => (RegistrationState::Failed, RegistrationAction::Fail(error)),
                }
            },
            _ => (RegistrationState::Failed, RegistrationAction::Fail(unexpected_event())),
        }
    }
}

/// The registration protocol over a password policy and a token generator,
/// for the service at one host.
pub struct RegisterUserUsecase<P: PasswordHasher, T: TokenGenerator> {
    password_hasher: P,
    token_generator: T,
    instance_host: String,
}

impl<P: PasswordHasher, T: TokenGenerator> RegisterUserUsecase<P, T> {
    /// The password policy of the protocol.
    pub closed spec fn password_hasher(&self) -> P {
        self.password_hasher
    }

    /// The token generator of the protocol.
    pub closed spec fn token_generator(&self) -> T {
        self.token_generator
    }

    /// The host of the service.
    pub closed spec fn instance_host(&self) -> Seq<char> {
        self.instance_host@
    }

    pub fn new(password_hasher: P, token_generator: T, instance_host: String) -> (made: Self)
        ensures
            made.password_hasher() == password_hasher,
            made.token_generator() == token_generator,
            made.instance_host() == instance_host@,
    {
        RegisterUserUsecase { password_hasher, token_generator, instance_host }
    }

    /// The host of the service.
    pub fn host(&self) -> (host: &str)
        ensures
            host@ == self.instance_host(),
    {
        self.instance_host.as_str()
    }

    /// Hashes a password, as a registration asks for it.
    pub fn hash_password(&self, password: &str) -> (event: RegistrationEvent)
        ensures
            event matches RegistrationEvent::PasswordHashed(hashed) && (password@.len()
                < MIN_PASSWORD_LENGTH <==> hashed is Err && hashed->Err_0@
                == DomainFault::WeakPassword) && (hashed is Err ==> self.password_hasher().refuses(
                password@,
                hashed->Err_0@,
            )) && (hashed is Ok ==> self.password_hasher().verdict(password@, hashed->Ok_0@) == Ok::<
                bool,
                DomainFault,
            >(true)),
    {
        RegistrationEvent::PasswordHashed(self.password_hasher.hash(password))
    }

    /// Issues a token for a user, as a registration asks for it.
    pub fn issue_token(&self, user: &User) -> (event: RegistrationEvent)
        ensures
            event matches RegistrationEvent::TokenGenerated(issued) && (issued is Ok
                ==> self.token_generator().issues(user@, issued->Ok_0@)) && (issued is Err
                ==> self.token_generator().refuses(user@, issued->Err_0@)),
    {
        RegistrationEvent::TokenGenerated(self.token_generator.generate(user))
    }

    /// Runs a registration against `store`.
    ///
    /// The store either stays as it was or gains one account at its end: the
    /// one of the new user, under the derived activity identifier, with the
    /// given display name and e-mail address and a hash that accepts the
    /// password. It stays as it was whenever the password is too short, the
    /// display name is empty, or the activity identifier or the e-mail
    /// address is taken; the registration then fails. Where it succeeds, the
    /// account was added, and the result holds its user and a token issued
    /// for it. Where it fails and nothing was stored, the failure is that of
    /// the password policy, the refusal of an empty display name, or a
    /// conflict; where it fails after the account was stored, the failure
    /// is that of the token generator. Where the display name is not empty
    /// and nothing can stand in the way of the account, only the password
    /// policy and the token generator can make the registration fail.
    pub fn create_user(
        &self,
        store: &mut MemoryStore,
        user_id: String,
        display_name: String,
        password: String,
        email: String,
    ) -> (result: Result<LoginResult, DomainError>)
        ensures
            final(store)@.host == old(store)@.host,
            consistent(final(store)@.accounts),
            final(store)@.accounts == old(store)@.accounts || added_account(
                self.password_hasher(),
                old(store)@.accounts,
                final(store)@.accounts,
                local_activity_id(self.instance_host(), user_id@),
                display_name@,
                password@,
                email@,
            ),
            password@.len() < MIN_PASSWORD_LENGTH ==> outcome(result) == Err::<
                LoginResultView,
                DomainFault,
            >(DomainFault::WeakPassword),
            password@.len() < MIN_PASSWORD_LENGTH || display_name@.len() == 0 || account_with(
                old(store)@.accounts,
                AccountKey::ActivityId(local_activity_id(self.instance_host(), user_id@)),
            ) is Some || account_with(old(store)@.accounts, AccountKey::Email(email@)) is Some ==> result is Err
                && final(store)@.accounts == old(store)@.accounts,
            result is Ok ==> final(store)@.accounts != old(store)@.accounts
                && result->Ok_0@.user == final(store)@.accounts.last().user
                && self.token_generator().issues(result->Ok_0@.user, result->Ok_0@.token),
            result is Err && final(store)@.accounts == old(store)@.accounts ==> self.password_hasher().refuses(
                password@,
                result->Err_0@,
            ) || (display_name@.len() == 0 && result->Err_0@ == DomainFault::EmptyDisplayName)
                || (display_name@.len() > 0 && result->Err_0@ == DomainFault::Repository(
                RepositoryFault::Conflict,
            )),
            result is Err && final(store)@.accounts == old(store)@.accounts && display_name@.len() > 0
                && nothing_in_the_way(
                old(store)@.accounts,
                local_activity_id(self.instance_host(), user_id@),
                email@,
            ) ==> self.password_hasher().refuses(password@, result->Err_0@),
            result is Err && final(store)@.accounts != old(store)@.accounts ==> self.token_generator().refuses(
                final(store)@.accounts.last().user,
                result->Err_0@,
            ),
    {
        let ghost before = store@.accounts;
        proof {
            use_type_invariant(&*store);
        }
        let (state, action) = RegistrationState::begin(
            self.instance_host.as_str(),
            user_id.as_str(),
            display_name,
            password,
            email,
        );
        let hashed = match action {
            RegistrationAction::HashPassword { password } => self.hash_password(password.as_str()),
            _ => {
                return Err(unexpected_event());
            },
        };
        let (state, action) = state.step(hashed);
        let stored = match action {
            RegistrationAction::Persist { activity_id, display_name, password_hash, email } => {
                store.register_user_with_credentials(
                    &activity_id,
                    display_name.as_str(),
                    password_hash,
                    email,
                )
            },
            RegistrationAction::Fail(error) => {
                return Err(error);
            },
            _ => {
                return Err(unexpected_event());
            },
        };
        proof {
            if stored is Ok {
                assert(store@.accounts.last() == store@.accounts[store@.accounts.len() - 1]);
                assert(store@.accounts.len() == before.len() + 1);
                assert(store@.accounts.drop_last() == before);
            }
        }
        let (state, action) = state.step(RegistrationEvent::Persisted(stored));
        let issued = match action {
            RegistrationAction::IssueToken { user } => self.issue_token(&user),
            RegistrationAction::Fail(error) => {
                return Err(error);
            },
            _ => {
                return Err(unexpected_event());
            },
        };
        let (_, action) = state.step(issued);
        match action {
            RegistrationAction::Succeed(result) => Ok(result),
            RegistrationAction::Fail(error) => Err(error),
            _ => Err(unexpected_event()),
        }
    }
}

/// Whether `after` is `before` with one account added at its end: that of a
/// user without an icon under `activity_id`, with this display name and
/// e-mail address, whose credential is its own and holds a hash for which
/// `hasher` accepts `password`.
pub open spec fn added_account<P: PasswordHasher>(
    hasher: P,
    before: Seq<AccountView>,
    after: Seq<AccountView>,
    activity_id: Seq<char>,
    display_name: Seq<char>,
    password: Seq<char>,
    email: Seq<char>,
) -> bool {
    &&& after.len() == before.len() + 1
    &&& after.drop_last() == before
    &&& after.last().user.activity_id == activity_id
    &&& after.last().user.display_name == display_name
    &&& after.last().user.icon_url is None
    &&& after.last().email == email
    &&& after.last().credential.id == after.last().user.id
    &&& after.last().credential.user_id == activity_id
    &&& after.last().credential.updated_at == after.last().credential.created_at
    &&& hasher.verdict(password, after.last().credential.password_hash) == Ok::<bool, DomainFault>(
        true,
    )
}

/// Whoever has just been registered can log in: once a registration has
/// added an account for a password, a login under the same activity
/// identifier with that password lets the new user in.
pub proof fn lemma_registered_user_can_log_in<P: PasswordHasher>(
    hasher: P,
    before: Seq<AccountView>,
    after: Seq<AccountView>,
    activity_id: Seq<char>,
    display_name: Seq<char>,
    password: Seq<char>,
    email: Seq<char>,
)
    requires
        consistent(after),
        added_account(hasher, before, after, activity_id, display_name, password, email),
    ensures
        login_decision(hasher, after, activity_id, password) == Ok::<UserView, DomainFault>(
            after.last().user,
        ),
{
    lemma_key_names_one(after, AccountKey::ActivityId(activity_id), after.len() - 1);
}

} // verus!
