//! The password policy: hashing a password and checking one against a hash.

use vstd::prelude::*;
use vstd::string::StrSliceExecFns;

use crate::credential::HashedPassword;
use crate::error::{outcome, DomainError, DomainFault};

verus! {

/// The least number of characters that a password must have.
pub const MIN_PASSWORD_LENGTH: usize = 8;

/// Whether `argon2::PasswordHash::new` accepts `hash` as a hash in the PHC
/// string format.
pub uninterp spec fn phc_well_formed(hash: Seq<char>) -> bool;

/// Whether `verify_password` of `argon2::Argon2::default()` accepts the
/// password `plain` for the well-formed hash `hash`.
pub uninterp spec fn argon2_accepts(plain: Seq<char>, hash: Seq<char>) -> bool;

#[verifier::external_type_specification]
#[verifier::external_body]
pub struct ExPasswordHashError(argon2::password_hash::Error);

/// Parses `hash` with `argon2::PasswordHash::new` and tells whether that
/// succeeded. Trusted: the answer depends on the text of `hash` alone.
#[verifier::external_body]
pub(crate) fn phc_parses(hash: &str) -> (ok: bool)
    ensures
        ok == phc_well_formed(hash@),
{
    argon2::PasswordHash::new(hash).is_ok()
}

/// Checks `plain` against `hash` with `verify_password` of
/// `argon2::Argon2::default()`, after parsing `hash` with
/// `argon2::PasswordHash::new`. `None` stands for a hash that does not
/// parse. Trusted: the answer depends on the two texts alone, and any error
/// of `verify_password` is a refusal.
#[verifier::external_body]
fn argon2_check(plain: &str, hash: &str) -> (checked: Option<bool>)
    ensures
        checked == (if phc_well_formed(hash@) {
            Some(argon2_accepts(plain@, hash@))
        } else {
            None
        }),
{
    match argon2::PasswordHash::new(hash) {
        Ok(parsed) => Some(
            argon2::PasswordVerifier::verify_password(
                &argon2::Argon2::default(),
                plain.as_bytes(),
                &parsed,
            ).is_ok(),
        ),
        Err(_) => None,
    }
}

/// Hashes `plain` with `hash_password` of `argon2::Argon2::default()` under a
/// salt drawn by `SaltString::generate` from the system's random source, and
/// hands out the PHC string of the result. Trusted: a hash that comes back
/// parses, and `verify_password` accepts `plain` for it. Which hash comes
/// back depends on the salt, and whether one comes back is left open.
#[verifier::external_body]
fn argon2_hash(plain: &str) -> (made: Result<String, argon2::password_hash::Error>)
    ensures
        made is Ok ==> phc_well_formed(made->Ok_0@) && argon2_accepts(plain@, made->Ok_0@),
{
    let salt = argon2::password_hash::SaltString::generate(argon2::password_hash::rand_core::OsRng);
    match argon2::PasswordHasher::hash_password(&argon2::Argon2::default(), plain.as_bytes(), &salt) {
        Ok(hash) => Ok(hash.to_string()),
        Err(e) => Err(e),
    }
}

/// A way of hashing passwords and of checking a password against a hash.
pub trait PasswordHasher: Clone {
    /// What `verify` answers for a password and a hash. It depends on the
    /// two texts alone.
    spec fn verdict(&self, plain: Seq<char>, hash: Seq<char>) -> Result<bool, DomainFault>;

    /// Whether `hash` may refuse the password `plain` with `fault`.
    spec fn refuses(&self, plain: Seq<char>, fault: DomainFault) -> bool;

    /// Hashes a password. A password of fewer than `MIN_PASSWORD_LENGTH`
    /// characters is refused as weak, and no other is; a hash that is handed
    /// out is one for which `verify` accepts the password.
    fn hash(&self, plain_password: &str) -> (made: Result<HashedPassword, DomainError>)
        ensures
            plain_password@.len() < MIN_PASSWORD_LENGTH ==> made is Err && made->Err_0@
                == DomainFault::WeakPassword,
            made is Err && made->Err_0@ == DomainFault::WeakPassword ==> plain_password@.len()
                < MIN_PASSWORD_LENGTH,
            made is Err ==> self.refuses(plain_password@, made->Err_0@),
            made is Ok ==> self.verdict(plain_password@, made->Ok_0@) == Ok::<bool, DomainFault>(
                true,
            ),
    ;

    /// Checks a password against a hash.
    fn verify(&self, plain_password: &str, hashed_password: &HashedPassword) -> (checked: Result<
        bool,
        DomainError,
    >)
        ensures
            outcome(checked) == self.verdict(plain_password@, hashed_password@),
    ;
}

/// What the Argon2 policy answers for a password and a hash: whether Argon2
/// accepts the password, or that the hash is no PHC string.
pub open spec fn argon2_verdict(plain: Seq<char>, hash: Seq<char>) -> Result<bool, DomainFault> {
    if phc_well_formed(hash) {
        Ok(argon2_accepts(plain, hash))
    } else {
        Err(DomainFault::InvalidCredentials)
    }
}

/// What `hash` hands out for the outcome of the Argon2 computation.
pub open spec fn hashed_or_invalid(made: Result<String, argon2::password_hash::Error>) -> Result<
    Seq<char>,
    DomainFault,
> {
    match made {
        Ok(hash) => Ok(hash@),
        Err(_) => Err(DomainFault::InvalidCredentials),
    }
}

/// The password policy built on Argon2 with a random salt for each hash.
#[derive(Debug, Clone, Copy)]
pub struct Argon2PasswordHasher;

impl Argon2PasswordHasher {
    pub fn new() -> Argon2PasswordHasher {
        Argon2PasswordHasher
    }

    /// Turns the outcome of the Argon2 computation into the outcome of
    /// `hash`: the hash, wrapped, or `InvalidCredentials` for any failure.
    pub fn conclude_hash(made: Result<String, argon2::password_hash::Error>) -> (concluded: Result<
        HashedPassword,
        DomainError,
    >)
        ensures
            outcome(concluded) == hashed_or_invalid(made),
    {
        match made {
            Ok(hash) => Ok(HashedPassword::new(hash)),
            Err(_) => Err(DomainError::InvalidCredentials),
        }
    }
}

impl Default for Argon2PasswordHasher {
    fn default() -> Argon2PasswordHasher {
        Argon2PasswordHasher::new()
    }
}

impl PasswordHasher for Argon2PasswordHasher {
    open spec fn verdict(&self, plain: Seq<char>, hash: Seq<char>) -> Result<bool, DomainFault> {
        argon2_verdict(plain, hash)
    }

    /// A password that is too short is refused as weak, and any other only
    /// where the Argon2 computation fails.
    open spec fn refuses(&self, plain: Seq<char>, fault: DomainFault) -> bool {
        if plain.len() < MIN_PASSWORD_LENGTH {
            fault == DomainFault::WeakPassword
        } else {
            fault == DomainFault::InvalidCredentials
        }
    }

    fn hash(&self, plain_password: &str) -> (made: Result<HashedPassword, DomainError>)
        ensures
            made is Ok ==> phc_well_formed(made->Ok_0@),
    {
        if plain_password.unicode_len() < MIN_PASSWORD_LENGTH {
            return Err(DomainError::WeakPassword);
        }
        Argon2PasswordHasher::conclude_hash(argon2_hash(plain_password))
    }

    fn verify(&self, plain_password: &str, hashed_password: &HashedPassword) -> (checked: Result<
        bool,
        DomainError,
    >) {
        match argon2_check(plain_password, hashed_password.as_str()) {
            Some(accepted) => Ok(accepted),
            None => Err(DomainError::InvalidCredentials),
        }
    }
}

impl HashedPassword {
    /// Hashes `raw` under `policy`: a password that the policy finds too
    /// short is refused as weak.
    pub fn from_plaintext<P: PasswordHasher>(raw: &str, policy: &P) -> (made: Result<
        HashedPassword,
        DomainError,
    >)
        ensures
            raw@.len() < MIN_PASSWORD_LENGTH <==> made is Err && made->Err_0@
                == DomainFault::WeakPassword,
            made is Err ==> policy.refuses(raw@, made->Err_0@),
            made is Ok ==> policy.verdict(raw@, made->Ok_0@) == Ok::<bool, DomainFault>(true),
    {
        policy.hash(raw)
    }

    /// Accepts a stored hash if and only if it is a PHC string. No password
    /// is checked against it.
    pub fn from_stored_hash(raw: String) -> (made: Result<HashedPassword, DomainError>)
        ensures
            phc_well_formed(raw@) ==> made is Ok && made->Ok_0@ == raw@,
            !phc_well_formed(raw@) ==> made is Err && made->Err_0@
                == DomainFault::InvalidCredentials,
    {
        if phc_parses(raw.as_str()) {
            Ok(HashedPassword::new(raw))
        } else {
            Err(DomainError::InvalidCredentials)
        }
    }
}

} // verus!
