//! Stored credentials: the password hash of a user and when it was set.

use vstd::prelude::*;

use crate::error::{DomainError, DomainFault};
use crate::user::ActivityId;

verus! {

/// A point in time: whole seconds since 1970-01-01 00:00:00 UTC, and the
/// nanoseconds that have passed since that second began.
#[derive(Debug, Clone, Copy, PartialEq, Eq, Structural)]
pub struct Timestamp {
    pub secs: i64,
    pub nanos: u32,
}

/// Reads the clock with `chrono::Utc::now` and hands out the seconds
/// (`DateTime::timestamp`) and nanoseconds (`DateTime::timestamp_subsec_nanos`)
/// of what it shows. Nothing is claimed of the time read.
#[verifier::external_body]
pub(crate) fn clock_now() -> Timestamp {
    let now = chrono::Utc::now();
    Timestamp { secs: now.timestamp(), nanos: now.timestamp_subsec_nanos() }
}

/// The hash of a password in its textual encoding. It never holds the
/// password itself.
#[derive(Debug)]
pub struct HashedPassword(String);

impl View for HashedPassword {
    type V = Seq<char>;

    closed spec fn view(&self) -> Seq<char> {
        self.0@
    }
}

impl HashedPassword {
    /// Wraps a string that already is a hash.
    pub fn new(hash: String) -> (wrapped: HashedPassword)
        ensures
            wrapped@ == hash@,
    {
        HashedPassword(hash)
    }

    /// The hash as text.
    pub fn as_str(&self) -> (text: &str)
        ensures
            text@ == self@,
    {
        self.0.as_str()
    }
}

impl Clone for HashedPassword {
    fn clone(&self) -> (copy: HashedPassword)
        ensures
            copy@ == self@,
    {
        HashedPassword(self.0.clone())
    }
}

/// Mathematical value of a [`Credential`].
pub struct CredentialView {
    pub id: u128,
    pub user_id: Seq<char>,
    pub password_hash: Seq<char>,
    pub created_at: Timestamp,
    pub updated_at: Timestamp,
}

/// The password record of one user.
#[derive(Debug)]
pub struct Credential {
    id: u128,
    user_id: ActivityId,
    password_hash: HashedPassword,
    created_at: Timestamp,
    updated_at: Timestamp,
}

impl View for Credential {
    type V = CredentialView;

    closed spec fn view(&self) -> CredentialView {
        CredentialView {
            id: self.id,
            user_id: self.user_id@,
            password_hash: self.password_hash@,
            created_at: self.created_at,
            updated_at: self.updated_at,
        }
    }
}

impl Credential {
    /// A credential created now: both of its times are the one moment at
    /// which the clock was read.
    pub fn new(id: u128, user_id: ActivityId, password_hash: HashedPassword) -> (made: Credential)
        ensures
            made@.id == id,
            made@.user_id == user_id@,
            made@.password_hash == password_hash@,
            made@.updated_at == made@.created_at,
    {
        let now = clock_now();
        Credential::reconstruct(id, user_id, password_hash, now, now)
    }

    /// The credential with exactly these parts.
    pub fn reconstruct(
        id: u128,
        user_id: ActivityId,
        password_hash: HashedPassword,
        created_at: Timestamp,
        updated_at: Timestamp,
    ) -> (made: Credential)
        ensures
            made@ == (CredentialView {
                id,
                user_id: user_id@,
                password_hash: password_hash@,
                created_at,
                updated_at,
            }),
    {
        Credential { id, user_id, password_hash, created_at, updated_at }
    }

    /// Turns the outcome of a password check into the outcome of the
    /// authentication: a mismatch is an authentication failure.
    pub fn validate(&self, is_valid: bool) -> (outcome: Result<(), DomainError>)
        ensures
            is_valid ==> outcome is Ok,
            !is_valid ==> outcome is Err && outcome->Err_0@ == DomainFault::AuthenticationFailed,
    {
        if is_valid {
            Ok(())
        } else {
            Err(DomainError::AuthenticationFailed)
        }
    }

    /// Replaces the hash and sets the time of the last update to the moment
    /// at which the clock is read. Nothing else changes.
    pub fn change_password(&mut self, new_password_hash: HashedPassword)
        ensures
            final(self)@.password_hash == new_password_hash@,
            final(self)@.id == old(self)@.id,
            final(self)@.user_id == old(self)@.user_id,
            final(self)@.created_at == old(self)@.created_at,
    {
        let now = clock_now();
        self.change_password_at(new_password_hash, now);
    }

    /// Replaces the hash and sets the time of the last update to `now`.
    /// Nothing else changes.
    pub fn change_password_at(&mut self, new_password_hash: HashedPassword, now: Timestamp)
        ensures
            final(self)@ == (CredentialView {
                password_hash: new_password_hash@,
                updated_at: now,
                ..old(self)@
            }),
    {
        self.password_hash = new_password_hash;
        self.updated_at = now;
    }

    pub fn id(&self) -> (id: u128)
        ensures
            id == self@.id,
    {
        self.id
    }

    pub fn user_id(&self) -> (user_id: &ActivityId)
        ensures
            user_id@ == self@.user_id,
    {
        &self.user_id
    }

    pub fn password_hash(&self) -> (hash: &HashedPassword)
        ensures
            hash@ == self@.password_hash,
    {
        &self.password_hash
    }

    pub fn created_at(&self) -> (at: Timestamp)
        ensures
            at == self@.created_at,
    {
        self.created_at
    }

    pub fn updated_at(&self) -> (at: Timestamp)
        ensures
            at == self@.updated_at,
    {
        self.updated_at
    }
}

impl Clone for Credential {
    fn clone(&self) -> (copy: Credential)
        ensures
            copy@ == self@,
    {
        Credential {
            id: self.id,
            user_id: self.user_id.clone(),
            password_hash: self.password_hash.clone(),
            created_at: self.created_at,
            updated_at: self.updated_at,
        }
    }
}

} // verus!
