//! Users and their identifiers.

use vstd::arithmetic::power::pow;
use vstd::prelude::*;
use vstd::std_specs::cmp::PartialEqSpecImpl;
use vstd::string::StringExecFns;

use crate::error::{outcome, DomainError, DomainFault, RepositoryError, RepositoryFault};
use crate::text::{has_prefix, starts_with};

verus! {

pub type IconUrl = String;

pub type DisplayName = String;

/// The scheme with which every activity identifier begins.
pub open spec fn activity_scheme() -> Seq<char> {
    "https://"@
}

/// The activity identifier of the user who chose the name `user_id` on the
/// service at `host`.
pub open spec fn local_activity_id(host: Seq<char>, user_id: Seq<char>) -> Seq<char> {
    activity_scheme() + host + "/users/"@ + user_id
}

/// The lower-case hexadecimal digit of `n`, for `0 <= n < 16`.
pub open spec fn hex_digit(n: int) -> char {
    "0123456789abcdef"@[n]
}

/// The `k`-th of the 32 hexadecimal digits of `value`, the most significant
/// being the one with `k == 0`.
pub open spec fn uuid_digit(value: u128, k: int) -> int {
    (value as int / pow(16, (31 - k) as nat)) % 16
}

/// How many hyphens stand before position `i` of the text of an identifier.
pub open spec fn hyphens_before(i: int) -> int {
    (if i > 8 { 1int } else { 0 }) + (if i > 13 { 1int } else { 0 }) + (if i > 18 { 1int } else { 0 })
        + (if i > 23 { 1int } else { 0 })
}

/// The text of a 128-bit identifier: its 32 lower-case hexadecimal digits in
/// groups of 8, 4, 4, 4 and 12, with a hyphen between the groups.
pub open spec fn uuid_text(value: u128) -> Seq<char> {
    Seq::new(
        36,
        |i: int|
            if i == 8 || i == 13 || i == 18 || i == 23 {
                '-'
            } else {
                hex_digit(uuid_digit(value, i - hyphens_before(i)))
            },
    )
}

/// The bits of an identifier that tell its version and its variant.
pub const UUID_FORM_MASK: u128 = 0x0000_0000_0000_f000_c000_0000_0000_0000u128;

/// What those bits hold in an identifier that was drawn at random: the
/// version 4 and the variant of RFC 9562.
pub const UUID_RANDOM_FORM: u128 = 0x0000_0000_0000_4000_8000_0000_0000_0000u128;

/// Whether `value` has the form of an identifier that was drawn at random.
/// The other 122 bits are the ones that chance decides.
pub open spec fn is_random_form(value: u128) -> bool {
    value & UUID_FORM_MASK == UUID_RANDOM_FORM
}

/// Draws a random identifier with `uuid::Uuid::new_v4` and hands out its
/// 128 bits (`Uuid::as_u128`). Trusted: `new_v4` sets the version to 4 and
/// the variant to that of RFC 9562. Nothing is claimed of the bits drawn.
#[verifier::external_body]
pub(crate) fn random_uuid() -> (value: u128)
    ensures
        is_random_form(value),
{
    uuid::Uuid::new_v4().as_u128()
}

/// Formats the identifier with these 128 bits (`uuid::Uuid::from_u128`) by
/// `Uuid`'s `Display`. Trusted: `Display` writes the hyphenated lower-case
/// form, the most significant digit first.
#[verifier::external_body]
fn format_uuid(value: u128) -> (text: String)
    ensures
        text@ == uuid_text(value),
{
    uuid::Uuid::from_u128(value).to_string()
}

/// The identity of a user: a 128-bit value assigned when the user is created.
#[derive(Debug, Clone, Copy, PartialEq, Eq, Structural)]
pub struct UserId(u128);

impl View for UserId {
    type V = u128;

    closed spec fn view(&self) -> u128 {
        self.0
    }
}

impl UserId {
    /// A fresh identity, drawn at random: an identifier of version 4.
    pub fn new() -> (id: UserId)
        ensures
            is_random_form(id@),
    {
        UserId(random_uuid())
    }

    /// The identity with the given 128 bits.
    pub fn from_uuid(uuid: u128) -> (id: UserId)
        ensures
            id@ == uuid,
    {
        UserId(uuid)
    }

    /// The 128 bits of the identity.
    pub fn as_uuid(&self) -> (uuid: u128)
        ensures
            uuid == self@,
    {
        self.0
    }

    /// The identity in its hyphenated hexadecimal form.
    pub fn to_text(&self) -> (text: String)
        ensures
            text@ == uuid_text(self@),
    {
        format_uuid(self.0)
    }
}

/// The federation-wide identifier of a user: a URI that begins with
/// `https://`.
#[derive(Debug)]
pub struct ActivityId(String);

impl View for ActivityId {
    type V = Seq<char>;

    closed spec fn view(&self) -> Seq<char> {
        self.0@
    }
}

impl ActivityId {
    #[verifier::type_invariant]
    spec fn well_formed(&self) -> bool {
        starts_with(self.0@, activity_scheme())
    }

    /// Accepts `value` as an identifier if and only if it begins with
    /// `https://`; the identifier then holds `value` unchanged.
    pub fn new(value: String) -> (made: Result<ActivityId, DomainError>)
        ensures
            starts_with(value@, activity_scheme()) ==> made is Ok && made->Ok_0@ == value@,
            !starts_with(value@, activity_scheme()) ==> made is Err && made->Err_0@
                == DomainFault::InvalidActivityId,
    {
        if !has_prefix(value.as_str(), "https://") {
            return Err(DomainError::InvalidActivityId);
        }
        Ok(ActivityId(value))
    }

    /// The identifier of the user who chose the name `user_id` on the
    /// service at `host`. Whatever the two texts hold, the result begins
    /// with `https://`.
    pub fn for_local_user(host: &str, user_id: &str) -> (made: ActivityId)
        ensures
            made@ == local_activity_id(host@, user_id@),
    {
        let mut value = "https://".to_string();
        value.append(host);
        value.append("/users/");
        value.append(user_id);
        assert(value@.subrange(0, activity_scheme().len() as int) == activity_scheme());
        ActivityId(value)
    }

    /// The identifier as text.
    pub fn as_str(&self) -> (text: &str)
        ensures
            text@ == self@,
            starts_with(text@, activity_scheme()),
    {
        proof {
            use_type_invariant(self);
        }
        self.0.as_str()
    }
}

impl Clone for ActivityId {
    fn clone(&self) -> (copy: ActivityId)
        ensures
            copy@ == self@,
    {
        proof {
            use_type_invariant(self);
        }
        ActivityId(self.0.clone())
    }
}

impl PartialEq for ActivityId {
    fn eq(&self, other: &ActivityId) -> (same: bool) {
        self.0 == other.0
    }
}

impl Eq for ActivityId {

}

impl PartialEqSpecImpl for ActivityId {
    open spec fn obeys_eq_spec() -> bool {
        true
    }

    open spec fn eq_spec(&self, other: &ActivityId) -> bool {
        self@ == other@
    }
}

/// Mathematical value of a [`User`].
pub struct UserView {
    pub id: u128,
    pub activity_id: Seq<char>,
    pub display_name: Seq<char>,
    pub icon_url: Option<Seq<char>>,
}

/// A user of the service. The display name is never empty.
#[derive(Debug)]
pub struct User {
    id: UserId,
    activity_id: ActivityId,
    display_name: DisplayName,
    icon_url: Option<IconUrl>,
}

impl View for User {
    type V = UserView;

    closed spec fn view(&self) -> UserView {
        UserView {
            id: self.id@,
            activity_id: self.activity_id@,
            display_name: self.display_name@,
            icon_url: match self.icon_url {
                Some(url) => Some(url@),
                None => None,
            },
        }
    }
}

/// The user that [`User::new`] builds from these parts.
pub open spec fn user_of(
    id: u128,
    activity_id: Seq<char>,
    display_name: Seq<char>,
    icon_url: Option<Seq<char>>,
) -> UserView {
    UserView { id, activity_id, display_name, icon_url }
}

/// The view of an optional text.
pub open spec fn optional_text(text: Option<String>) -> Option<Seq<char>> {
    match text {
        Some(t) => Some(t@),
        None => None,
    }
}

/// What is wrong with a stored record of a user, if anything: an activity
/// identifier that does not begin with `https://`, or else an empty display
/// name.
pub open spec fn record_fault(activity_id: Seq<char>, display_name: Seq<char>) -> Option<
    DomainFault,
> {
    if !starts_with(activity_id, activity_scheme()) {
        Some(DomainFault::InvalidActivityId)
    } else if display_name.len() == 0 {
        Some(DomainFault::EmptyDisplayName)
    } else {
        None
    }
}

impl User {
    #[verifier::type_invariant]
    spec fn well_formed(&self) -> bool {
        self.display_name@.len() > 0
    }

    /// Builds a user from its parts. Fails if and only if the display name
    /// is empty.
    pub fn new(
        id: u128,
        activity_id: ActivityId,
        display_name: DisplayName,
        icon_url: Option<IconUrl>,
    ) -> (made: Result<User, DomainError>)
        ensures
            display_name@.len() == 0 ==> made is Err && made->Err_0@
                == DomainFault::EmptyDisplayName,
            display_name@.len() > 0 ==> made is Ok && made->Ok_0@ == user_of(
                id,
                activity_id@,
                display_name@,
                optional_text(icon_url),
            ),
    {
        if display_name.as_str().is_empty() {
            return Err(DomainError::EmptyDisplayName);
        }
        let id = UserId(id);
        Ok(User { id, activity_id, display_name, icon_url })
    }

    /// Builds the user that a stored record describes. A record that holds
    /// no valid user is a fault of the store, described by what is wrong
    /// with it.
    pub fn from_record(
        id: u128,
        activity_id: String,
        display_name: String,
        icon_url: Option<String>,
    ) -> (made: Result<User, RepositoryError>)
        ensures
            outcome(made) == (match record_fault(activity_id@, display_name@) {
                Some(fault) => Err::<UserView, RepositoryFault>(
                    RepositoryFault::DatabaseError(fault.message()),
                ),
                None => Ok::<UserView, RepositoryFault>(
                    user_of(id, activity_id@, display_name@, optional_text(icon_url)),
                ),
            }),
    {
        let activity_id = match ActivityId::new(activity_id) {
            Ok(activity_id) => activity_id,
            Err(error) => {
                return Err(RepositoryError::DatabaseError(error.message()));
            },
        };
        match User::new(id, activity_id, display_name, icon_url) {
            Ok(user) => Ok(user),
            Err(error) => Err(RepositoryError::DatabaseError(error.message())),
        }
    }

    pub fn id(&self) -> (id: &UserId)
        ensures
            id@ == self@.id,
    {
        &self.id
    }

    pub fn activity_id(&self) -> (activity_id: &ActivityId)
        ensures
            activity_id@ == self@.activity_id,
    {
        &self.activity_id
    }

    pub fn display_name(&self) -> (name: &str)
        ensures
            name@ == self@.display_name,
            name@.len() > 0,
    {
        proof {
            use_type_invariant(self);
        }
        self.display_name.as_str()
    }

    pub fn icon_url(&self) -> (url: Option<&str>)
        ensures
            url is Some <==> self@.icon_url is Some,
            url is Some ==> url->Some_0@ == self@.icon_url->Some_0,
    {
        match &self.icon_url {
            Some(url) => Some(url.as_str()),
            None => None,
        }
    }
}

impl Clone for User {
    fn clone(&self) -> (copy: User)
        ensures
            copy@ == self@,
    {
        proof {
            use_type_invariant(self);
        }
        let icon_url = match &self.icon_url {
            Some(url) => Some(url.clone()),
            None => None,
        };
        User {
            id: self.id,
            activity_id: self.activity_id.clone(),
            display_name: self.display_name.clone(),
            icon_url,
        }
    }
}

} // verus!
