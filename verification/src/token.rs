//! Bearer tokens: the claims that a token states and the generator that
//! signs them.

use vstd::prelude::*;
use vstd::string::StringExecFns;

use crate::credential::{clock_now, Timestamp};
use crate::error::{DomainError, DomainFault, RepositoryError, RepositoryFault};
use crate::user::{uuid_text, User, UserView};

verus! {

pub type Token = String;

/// The lifetime of a token, in hours, where none is chosen.
pub const DEFAULT_EXPIRATION_HOURS: i64 = 24;

/// The number of seconds in an hour.
pub const SECONDS_PER_HOUR: i64 = 3600;

/// What a token states: whom it is about, and from when until when it holds.
#[derive(Debug)]
pub struct Claims {
    /// The user's identity, as text.
    pub sub: String,
    /// The user's activity identifier.
    pub activity_id: String,
    /// The second at which the token expires.
    pub exp: i64,
    /// The second at which the token was issued.
    pub iat: i64,
}

/// Mathematical value of [`Claims`].
pub struct ClaimsView {
    pub sub: Seq<char>,
    pub activity_id: Seq<char>,
    pub exp: i64,
    pub iat: i64,
}

impl View for Claims {
    type V = ClaimsView;

    open spec fn view(&self) -> ClaimsView {
        ClaimsView { sub: self.sub@, activity_id: self.activity_id@, exp: self.exp, iat: self.iat }
    }
}

/// The claims of a token issued for `user` at the second `now` with a
/// lifetime of `hours` hours, or `None` where the second of expiry is not
/// a 64-bit number.
pub open spec fn claims_for(user: UserView, now: i64, hours: i64) -> Option<ClaimsView> {
    let exp = now + SECONDS_PER_HOUR * hours;
    if i64::MIN <= exp <= i64::MAX {
        Some(
            ClaimsView {
                sub: uuid_text(user.id),
                activity_id: user.activity_id,
                exp: exp as i64,
                iat: now,
            },
        )
    } else {
        None
    }
}

/// The token that `jsonwebtoken::encode` makes of these four claims under
/// the default header (HS256) and the HMAC key `secret`, or `None` where it
/// fails.
pub uninterp spec fn signed_token(
    secret: Seq<char>,
    sub: Seq<char>,
    activity_id: Seq<char>,
    exp: i64,
    iat: i64,
) -> Option<Seq<char>>;

#[verifier::external_type_specification]
#[verifier::external_body]
pub struct ExJwtError(jsonwebtoken::errors::Error);

/// Hands the claims, as a JSON object with the members `sub`, `activity_id`,
/// `exp` and `iat`, to `jsonwebtoken::encode`, with `Header::default()` and
/// the key `EncodingKey::from_secret` of the bytes of `secret`. Trusted: what
/// comes back depends on the secret and the four claims alone.
#[verifier::external_body]
fn encode_claims(secret: &str, claims: &Claims) -> (made: Result<
    String,
    jsonwebtoken::errors::Error,
>)
    ensures
        made is Ok ==> signed_token(
            secret@,
            claims.sub@,
            claims.activity_id@,
            claims.exp,
            claims.iat,
        ) == Some(made->Ok_0@),
        made is Err ==> signed_token(
            secret@,
            claims.sub@,
            claims.activity_id@,
            claims.exp,
            claims.iat,
        ) is None,
{
    let mut body = serde_json::Map::new();
    body.insert("sub".to_string(), serde_json::Value::from(claims.sub.as_str()));
    body.insert("activity_id".to_string(), serde_json::Value::from(claims.activity_id.as_str()));
    body.insert("exp".to_string(), serde_json::Value::from(claims.exp));
    body.insert("iat".to_string(), serde_json::Value::from(claims.iat));
    let key = jsonwebtoken::EncodingKey::from_secret(secret.as_bytes());
    jsonwebtoken::encode(&jsonwebtoken::Header::default(), &body, &key)
}

/// The text of an error of `jsonwebtoken`, as its `Display` writes it.
/// Nothing is claimed of the text.
#[verifier::external_body]
fn describe_jwt_error(error: &jsonwebtoken::errors::Error) -> String {
    error.to_string()
}

/// The beginning of the description of every failure to issue a token.
pub open spec fn token_failure_prefix() -> Seq<char> {
    "Failed to generate token: "@
}

/// Whether `fault` reports a failure to issue a token.
pub open spec fn is_token_failure(fault: DomainFault) -> bool {
    fault matches DomainFault::Repository(RepositoryFault::DatabaseError(text))
        && crate::text::starts_with(text, token_failure_prefix())
}

/// A way of issuing a bearer token for a user.
pub trait TokenGenerator: Send + Sync {
    /// Whether `token` is one that this generator issues for `user`.
    spec fn issues(&self, user: UserView, token: Seq<char>) -> bool;

    /// Whether this generator may fail with `fault` for `user`.
    spec fn refuses(&self, user: UserView, fault: DomainFault) -> bool;

    /// Issues a token for `user`.
    fn generate(&self, user: &User) -> (issued: Result<Token, DomainError>)
        ensures
            issued is Ok ==> self.issues(user@, issued->Ok_0@),
            issued is Err ==> self.refuses(user@, issued->Err_0@),
    ;
}

/// Issues signed tokens that state the user's identity, the user's activity
/// identifier, and the seconds of issue and of expiry.
pub struct JwtTokenGenerator {
    secret: String,
    expiration_hours: i64,
}

/// The signed token for `user` issued at the second `now` under `secret`
/// with a lifetime of `hours` hours, or `None` where the second of expiry is
/// not a 64-bit number or the signing fails.
pub open spec fn token_at(secret: Seq<char>, hours: i64, user: UserView, now: i64) -> Option<
    Seq<char>,
> {
    match claims_for(user, now, hours) {
        Some(claims) => signed_token(
            secret,
            claims.sub,
            claims.activity_id,
            claims.exp,
            claims.iat,
        ),
        None => None,
    }
}

impl JwtTokenGenerator {
    /// The secret with which the tokens are signed.
    pub closed spec fn secret(&self) -> Seq<char> {
        self.secret@
    }

    /// The lifetime of the tokens, in hours.
    pub closed spec fn expiration_hours(&self) -> i64 {
        self.expiration_hours
    }

    /// A generator whose tokens live for `DEFAULT_EXPIRATION_HOURS` hours.
    pub fn new(secret: String) -> (made: JwtTokenGenerator)
        ensures
            made.secret() == secret@,
            made.expiration_hours() == DEFAULT_EXPIRATION_HOURS,
    {
        JwtTokenGenerator { secret, expiration_hours: DEFAULT_EXPIRATION_HOURS }
    }

    /// A generator whose tokens live for `expiration_hours` hours.
    pub fn with_expiration(secret: String, expiration_hours: i64) -> (made: JwtTokenGenerator)
        ensures
            made.secret() == secret@,
            made.expiration_hours() == expiration_hours,
    {
        JwtTokenGenerator { secret, expiration_hours }
    }

    /// The claims of a token issued for `user` at `now`.
    pub fn claims_at(&self, user: &User, now: Timestamp) -> (claims: Option<Claims>)
        ensures
            claims is Some <==> claims_for(user@, now.secs, self.expiration_hours()) is Some,
            claims is Some ==> claims->Some_0@ == claims_for(
                user@,
                now.secs,
                self.expiration_hours(),
            )->Some_0,
    {
        let exp: i128 = now.secs as i128 + (SECONDS_PER_HOUR as i128) * (self.expiration_hours as i128);
        if exp < i64::MIN as i128 || exp > i64::MAX as i128 {
            return None;
        }
        Some(
            Claims {
                sub: user.id().to_text(),
                activity_id: user.activity_id().as_str().to_string(),
                exp: exp as i64,
                iat: now.secs,
            },
        )
    }

    /// The failure that reports `detail` as the reason for which no token
    /// was issued.
    pub fn failure(detail: &str) -> (error: DomainError)
        ensures
            error@ == DomainFault::Repository(
                RepositoryFault::DatabaseError(token_failure_prefix() + detail@),
            ),
    {
        let mut text = "Failed to generate token: ".to_string();
        text.append(detail);
        DomainError::Repository(RepositoryError::DatabaseError(text))
    }

    /// Turns the outcome of the signing into the outcome of the issuance:
    /// the token, or a failure that reports the signing error.
    pub fn conclude(signed: Result<String, jsonwebtoken::errors::Error>) -> (issued: Result<
        Token,
        DomainError,
    >)
        ensures
            signed is Ok ==> issued is Ok && issued->Ok_0@ == signed->Ok_0@,
            signed is Err ==> issued is Err && is_token_failure(issued->Err_0@),
    {
        match signed {
            Ok(token) => Ok(token),
            Err(error) => {
                let detail = describe_jwt_error(&error);
                let failure = JwtTokenGenerator::failure(detail.as_str());
                assert((token_failure_prefix() + detail@).subrange(
                    0,
                    token_failure_prefix().len() as int,
                ) == token_failure_prefix());
                Err(failure)
            },
        }
    }

    /// Issues the token for `user` at `now`. It fails if and only if the
    /// second of expiry is not a 64-bit number or the signing fails.
    pub fn issue_at(&self, user: &User, now: Timestamp) -> (issued: Result<Token, DomainError>)
        ensures
            issued is Ok <==> token_at(
                self.secret(),
                self.expiration_hours(),
                user@,
                now.secs,
            ) is Some,
            issued is Ok ==> Some(issued->Ok_0@) == token_at(
                self.secret(),
                self.expiration_hours(),
                user@,
                now.secs,
            ),
            issued is Err ==> is_token_failure(issued->Err_0@),
    {
        match self.claims_at(user, now) {
            Some(claims) => {
                let issued = JwtTokenGenerator::conclude(encode_claims(self.secret.as_str(), &claims));
                issued
            },
            None => {
                let failure = JwtTokenGenerator::failure("expiry out of range");
                assert((token_failure_prefix() + "expiry out of range"@).subrange(
                    0,
                    token_failure_prefix().len() as int,
                ) == token_failure_prefix());
                Err(failure)
            },
        }
    }
}

impl Clone for JwtTokenGenerator {
    fn clone(&self) -> (copy: JwtTokenGenerator)
        ensures
            copy.secret() == self.secret(),
            copy.expiration_hours() == self.expiration_hours(),
    {
        JwtTokenGenerator { secret: self.secret.clone(), expiration_hours: self.expiration_hours }
    }
}

impl TokenGenerator for JwtTokenGenerator {
    open spec fn issues(&self, user: UserView, token: Seq<char>) -> bool {
        exists|now: i64|
            token_at(self.secret(), self.expiration_hours(), user, now) == Some(token)
    }

    /// Every failure reports that no token was issued, and why.
    open spec fn refuses(&self, user: UserView, fault: DomainFault) -> bool {
        is_token_failure(fault)
    }

    fn generate(&self, user: &User) -> (issued: Result<Token, DomainError>) {
        let now = clock_now();
        self.issue_at(user, now)
    }
}

} // verus!
