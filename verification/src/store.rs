//! A store of users and their credentials that lives in memory. A user and
//! its credential are held as one account, so neither exists without the
//! other, and no two accounts share an identity, an activity identifier or an
//! e-mail address.

use vstd::prelude::*;

use crate::credential::{clock_now, Credential, CredentialView, HashedPassword, Timestamp};
use crate::error::{outcome, DomainFault, RepositoryError, RepositoryFault};
use crate::user::{is_random_form, local_activity_id, random_uuid, user_of, ActivityId, User,
    UserView};

verus! {

/// Mathematical value of an account: a user, its credential, and the e-mail
/// address that the credential was registered with.
pub struct AccountView {
    pub user: UserView,
    pub credential: CredentialView,
    pub email: Seq<char>,
}

/// Something by which an account is found.
pub enum AccountKey {
    Id(u128),
    ActivityId(Seq<char>),
    Email(Seq<char>),
}

/// Whether `account` is the one that `key` names.
pub open spec fn has_key(account: AccountView, key: AccountKey) -> bool {
    match key {
        AccountKey::Id(id) => account.user.id == id,
        AccountKey::ActivityId(activity_id) => account.user.activity_id == activity_id,
        AccountKey::Email(email) => account.email == email,
    }
}

/// The position of the first account at or after `from` that `key` names, or
/// the number of accounts where there is none.
pub open spec fn position_of(accounts: Seq<AccountView>, key: AccountKey, from: int) -> int
    decreases accounts.len() - from,
{
    if from >= accounts.len() || has_key(accounts[from], key) {
        from
    } else {
        position_of(accounts, key, from + 1)
    }
}

/// The first account that `key` names, if there is one.
pub open spec fn account_with(accounts: Seq<AccountView>, key: AccountKey) -> Option<AccountView> {
    let at = position_of(accounts, key, 0);
    if at < accounts.len() {
        Some(accounts[at])
    } else {
        None
    }
}

/// Whether the credential of `account` belongs to its user.
pub open spec fn paired(account: AccountView) -> bool {
    account.credential.id == account.user.id && account.credential.user_id
        == account.user.activity_id
}

/// Whether two accounts differ in everything by which an account is found.
pub open spec fn distinct(a: AccountView, b: AccountView) -> bool {
    a.user.id != b.user.id && a.user.activity_id != b.user.activity_id && a.email != b.email
}

/// What holds of the accounts of every store: each credential belongs to the
/// user that it is held with, and no two accounts share an identity, an
/// activity identifier or an e-mail address.
pub open spec fn consistent(accounts: Seq<AccountView>) -> bool {
    &&& forall|i: int| 0 <= i < accounts.len() ==> paired(#[trigger] accounts[i])
    &&& forall|i: int, j: int|
        0 <= i < j < accounts.len() ==> distinct(#[trigger] accounts[i], #[trigger] accounts[j])
}

/// Whether an account stands in the way of a new one with this identity,
/// activity identifier and e-mail address.
pub open spec fn taken(
    accounts: Seq<AccountView>,
    id: u128,
    activity_id: Seq<char>,
    email: Seq<char>,
) -> bool {
    account_with(accounts, AccountKey::Id(id)) is Some || account_with(
        accounts,
        AccountKey::ActivityId(activity_id),
    ) is Some || account_with(accounts, AccountKey::Email(email)) is Some
}

/// Whether nothing can stand in the way of a new account with this activity
/// identifier and e-mail address under a freshly drawn identity: no account
/// has the activity identifier or the e-mail address, and none has an
/// identity of the form that is drawn at random. An empty store is such a
/// one.
pub open spec fn nothing_in_the_way(
    accounts: Seq<AccountView>,
    activity_id: Seq<char>,
    email: Seq<char>,
) -> bool {
    &&& account_with(accounts, AccountKey::ActivityId(activity_id)) is None
    &&& account_with(accounts, AccountKey::Email(email)) is None
    &&& forall|i: int|
        0 <= i < accounts.len() ==> !is_random_form((#[trigger] accounts[i]).user.id)
}

/// The account of a user registered at `now` with these parts.
pub open spec fn new_account(
    id: u128,
    now: Timestamp,
    activity_id: Seq<char>,
    display_name: Seq<char>,
    password_hash: Seq<char>,
    email: Seq<char>,
) -> AccountView {
    AccountView {
        user: user_of(id, activity_id, display_name, None),
        credential: CredentialView {
            id,
            user_id: activity_id,
            password_hash,
            created_at: now,
            updated_at: now,
        },
        email,
    }
}

/// What a registration with these parts comes to: the new account, a
/// conflict where an account stands in its way, or the refusal of an empty
/// display name.
pub open spec fn registration(
    accounts: Seq<AccountView>,
    id: u128,
    now: Timestamp,
    activity_id: Seq<char>,
    display_name: Seq<char>,
    password_hash: Seq<char>,
    email: Seq<char>,
) -> Result<AccountView, RepositoryFault> {
    if display_name.len() == 0 {
        Err(RepositoryFault::DatabaseError(DomainFault::EmptyDisplayName.message()))
    } else if taken(accounts, id, activity_id, email) {
        Err(RepositoryFault::Conflict)
    } else {
        Ok(new_account(id, now, activity_id, display_name, password_hash, email))
    }
}

/// The credential that a lookup by activity identifier finds.
pub open spec fn credential_of(accounts: Seq<AccountView>, activity_id: Seq<char>) -> Result<
    CredentialView,
    RepositoryFault,
> {
    match account_with(accounts, AccountKey::ActivityId(activity_id)) {
        Some(account) => Ok(account.credential),
        None => Err(RepositoryFault::NotFound),
    }
}

/// The user that a lookup by activity identifier finds.
pub open spec fn user_of_activity_id(accounts: Seq<AccountView>, activity_id: Seq<char>) -> Option<
    UserView,
> {
    match account_with(accounts, AccountKey::ActivityId(activity_id)) {
        Some(account) => Some(account.user),
        None => None,
    }
}

/// The user that a lookup by identity finds.
pub open spec fn user_of_id(accounts: Seq<AccountView>, id: u128) -> Option<UserView> {
    match account_with(accounts, AccountKey::Id(id)) {
        Some(account) => Some(account.user),
        None => None,
    }
}

/// `position_of` stays within the accounts, stops on an account that the key
/// names or at the end, and passes over no such account.
pub proof fn lemma_position_of(accounts: Seq<AccountView>, key: AccountKey, from: int)
    requires
        0 <= from <= accounts.len(),
    ensures
        from <= position_of(accounts, key, from) <= accounts.len(),
        position_of(accounts, key, from) < accounts.len() ==> has_key(
            accounts[position_of(accounts, key, from)],
            key,
        ),
        forall|i: int| from <= i < position_of(accounts, key, from) ==> !has_key(accounts[i], key),
    decreases accounts.len() - from,
{
    if from < accounts.len() && !has_key(accounts[from], key) {
        lemma_position_of(accounts, key, from + 1);
    }
}

/// Among consistent accounts a key names at most one: the account found by
/// a key is the only one that has it.
pub proof fn lemma_key_names_one(accounts: Seq<AccountView>, key: AccountKey, i: int)
    requires
        consistent(accounts),
        0 <= i < accounts.len(),
        has_key(accounts[i], key),
    ensures
        position_of(accounts, key, 0) == i,
        account_with(accounts, key) == Some(accounts[i]),
{
    lemma_position_of(accounts, key, 0);
    let at = position_of(accounts, key, 0);
    if at < i {
        assert(distinct(accounts[at], accounts[i]));
    }
}

/// A registration under an activity identifier or an e-mail address that
/// an account already has comes to a conflict, whatever else it brings.
pub proof fn lemma_used_key_is_conflict(
    accounts: Seq<AccountView>,
    used: int,
    id: u128,
    now: Timestamp,
    activity_id: Seq<char>,
    display_name: Seq<char>,
    password_hash: Seq<char>,
    email: Seq<char>,
)
    requires
        0 <= used < accounts.len(),
        accounts[used].user.activity_id == activity_id || accounts[used].email == email,
        display_name.len() > 0,
    ensures
        registration(accounts, id, now, activity_id, display_name, password_hash, email) == Err::<
            AccountView,
            RepositoryFault,
        >(RepositoryFault::Conflict),
{
    lemma_position_of(accounts, AccountKey::ActivityId(activity_id), 0);
    lemma_position_of(accounts, AccountKey::Email(email), 0);
    if accounts[used].user.activity_id == activity_id {
        assert(has_key(accounts[used], AccountKey::ActivityId(activity_id)));
    } else {
        assert(has_key(accounts[used], AccountKey::Email(email)));
    }
}

struct Account {
    user: User,
    credential: Credential,
    email: String,
}

impl View for Account {
    type V = AccountView;

    closed spec fn view(&self) -> AccountView {
        AccountView { user: self.user@, credential: self.credential@, email: self.email@ }
    }
}

enum Lookup<'a> {
    Id(u128),
    ActivityId(&'a ActivityId),
    Email(&'a String),
}

impl<'a> Lookup<'a> {
    spec fn key(&self) -> AccountKey {
        match self {
            Lookup::Id(id) => AccountKey::Id(*id),
            Lookup::ActivityId(activity_id) => AccountKey::ActivityId(activity_id@),
            Lookup::Email(email) => AccountKey::Email(email@),
        }
    }
}

impl Account {
    fn is_named_by(&self, lookup: &Lookup) -> (named: bool)
        ensures
            named == has_key(self@, lookup.key()),
    {
        match lookup {
            Lookup::Id(id) => self.user.id().as_uuid() == *id,
            Lookup::ActivityId(activity_id) => self.user.activity_id() == *activity_id,
            Lookup::Email(email) => self.email == **email,
        }
    }
}

/// A store of accounts in memory, for the service at one host.
pub struct MemoryStore {
    host: String,
    accounts: Vec<Account>,
}

/// Mathematical value of a [`MemoryStore`]: the host of the service, and the
/// accounts in the order in which they were registered.
pub struct MemoryStoreView {
    pub host: Seq<char>,
    pub accounts: Seq<AccountView>,
}

impl View for MemoryStore {
    type V = MemoryStoreView;

    closed spec fn view(&self) -> MemoryStoreView {
        MemoryStoreView {
            host: self.host@,
            accounts: self.accounts@.map_values(|account: Account| account@),
        }
    }
}

impl MemoryStore {
    /// The accounts of a store are consistent at all times.
    #[verifier::type_invariant]
    pub open spec fn well_formed(&self) -> bool {
        consistent(self@.accounts)
    }

    /// An empty store for the service at `host`.
    pub fn new(host: String) -> (store: MemoryStore)
        ensures
            store@.accounts.len() == 0,
            store@.host == host@,
    {
        MemoryStore { host, accounts: Vec::new() }
    }

    /// The number of accounts.
    pub fn len(&self) -> (count: usize)
        ensures
            count == self@.accounts.len(),
    {
        self.accounts.len()
    }

    fn find(&self, lookup: &Lookup) -> (at: usize)
        ensures
            at == position_of(self@.accounts, lookup.key(), 0),
            at <= self.accounts.len(),
            self.accounts.len() == self@.accounts.len(),
    {
        let mut at: usize = 0;
        while at < self.accounts.len() && !self.accounts[at].is_named_by(lookup)
            invariant
                at <= self.accounts.len(),
                self.accounts.len() == self@.accounts.len(),
                position_of(self@.accounts, lookup.key(), 0) == position_of(self@.accounts, lookup.key(), at as int),
            decreases self.accounts.len() - at,
        {
            at += 1;
        }
        at
    }

    /// The credential of the user who chose the name `login_id` on this
    /// service, or `NotFound`.
    pub fn get_credential(&self, login_id: &str) -> (fetched: Result<Credential, RepositoryError>)
        ensures
            outcome(fetched) == credential_of(self@.accounts, local_activity_id(self@.host, login_id@)),
    {
        let activity_id = ActivityId::for_local_user(self.host.as_str(), login_id);
        let at = self.find(&Lookup::ActivityId(&activity_id));
        if at < self.accounts.len() {
            Ok(self.accounts[at].credential.clone())
        } else {
            Err(RepositoryError::NotFound)
        }
    }

    /// The user with the identity `id`, if the store holds one. The lookup
    /// itself never fails.
    pub fn find_by_id(&self, id: u128) -> (found: Result<Option<User>, RepositoryError>)
        ensures
            found is Ok,
            found->Ok_0 is Some <==> user_of_id(self@.accounts, id) is Some,
            found->Ok_0 is Some ==> Some(found->Ok_0->Some_0@) == user_of_id(self@.accounts, id),
    {
        let at = self.find(&Lookup::Id(id));
        if at < self.accounts.len() {
            Ok(Some(self.accounts[at].user.clone()))
        } else {
            Ok(None)
        }
    }

    /// The user who chose the name `username` on this service, if the store
    /// holds one. The lookup itself never fails.
    pub fn find_by_username(&self, username: &str) -> (found: Result<
        Option<User>,
        RepositoryError,
    >)
        ensures
            found is Ok,
            found->Ok_0 is Some <==> user_of_activity_id(
                self@.accounts,
                local_activity_id(self@.host, username@),
            ) is Some,
            found->Ok_0 is Some ==> Some(found->Ok_0->Some_0@) == user_of_activity_id(
                self@.accounts,
                local_activity_id(self@.host, username@),
            ),
    {
        let activity_id = ActivityId::for_local_user(self.host.as_str(), username);
        let at = self.find(&Lookup::ActivityId(&activity_id));
        if at < self.accounts.len() {
            Ok(Some(self.accounts[at].user.clone()))
        } else {
            Ok(None)
        }
    }

    /// Registers a user and its credential as one account, under the
    /// identity `id` and at the time `now`. Either the account is added at
    /// the end, or the store stays as it was: when the display name is
    /// empty, and when an account with this identity, activity identifier or
    /// e-mail address exists.
    pub fn register_as(
        &mut self,
        id: u128,
        now: Timestamp,
        activity_id: &ActivityId,
        display_name: &str,
        password_hash: HashedPassword,
        email: String,
    ) -> (registered: Result<User, RepositoryError>)
        ensures
            final(self)@.host == old(self)@.host,
            consistent(final(self)@.accounts),
            match registration(
                old(self)@.accounts,
                id,
                now,
                activity_id@,
                display_name@,
                password_hash@,
                email@,
            ) {
                Ok(account) => outcome(registered) == Ok::<UserView, RepositoryFault>(account.user)
                    && final(self)@.accounts == old(self)@.accounts.push(account),
                Err(fault) => outcome(registered) == Err::<UserView, RepositoryFault>(fault)
                    && final(self)@.accounts == old(self)@.accounts,
            },
    {
        proof {
            use_type_invariant(&*self);
        }
        let user = match User::new(id, activity_id.clone(), display_name.to_string(), None) {
            Ok(user) => user,
            Err(error) => {
                return Err(RepositoryError::DatabaseError(error.message()));
            },
        };
        let by_id = self.find(&Lookup::Id(id));
        let by_activity_id = self.find(&Lookup::ActivityId(activity_id));
        let by_email = self.find(&Lookup::Email(&email));
        let count = self.accounts.len();
        if by_id < count || by_activity_id < count || by_email < count {
            return Err(RepositoryError::Conflict);
        }
        let credential = Credential::reconstruct(id, activity_id.clone(), password_hash, now, now);
        let registered = user.clone();
        let account = Account { user, credential, email };
        let ghost before = self@.accounts;
        let mut accounts: Vec<Account> = Vec::new();
        std::mem::swap(&mut self.accounts, &mut accounts);
        proof {
            let after = accounts@.push(account).map_values(|a: Account| a@);
            assert(before == accounts@.map_values(|a: Account| a@));
            assert(after == before.push(account@));
            lemma_position_of(before, AccountKey::Id(id), 0);
            lemma_position_of(before, AccountKey::ActivityId(activity_id@), 0);
            lemma_position_of(before, AccountKey::Email(account@.email), 0);
            assert forall|i: int, j: int| 0 <= i < j < after.len() implies distinct(
                #[trigger] after[i],
                #[trigger] after[j],
            ) by {
                if j == before.len() {
                    assert(!has_key(before[i], AccountKey::Id(id)));
                    assert(!has_key(before[i], AccountKey::ActivityId(activity_id@)));
                    assert(!has_key(before[i], AccountKey::Email(account@.email)));
                } else {
                    assert(distinct(before[i], before[j]));
                }
            }
            assert forall|i: int| 0 <= i < after.len() implies paired(#[trigger] after[i]) by {
                if i < before.len() {
                    assert(paired(before[i]));
                }
            }
        }
        accounts.push(account);
        std::mem::swap(&mut self.accounts, &mut accounts);
        proof {
            use_type_invariant(&*self);
        }
        Ok(registered)
    }

    /// Registers a user and its credential as one account, under a freshly
    /// drawn identity and at the time that the clock shows. Either the
    /// account is added at the end, or the store stays as it was. An empty
    /// display name is refused, and an activity identifier or e-mail address
    /// that an account already has is a conflict. Where the display name is
    /// not empty and nothing can stand in the way, the account is added.
    pub fn register_user_with_credentials(
        &mut self,
        activity_id: &ActivityId,
        display_name: &str,
        password_hash: HashedPassword,
        email: String,
    ) -> (registered: Result<User, RepositoryError>)
        ensures
            final(self)@.host == old(self)@.host,
            consistent(final(self)@.accounts),
            registered is Err ==> final(self)@.accounts == old(self)@.accounts,
            registered is Ok ==> final(self)@.accounts == old(self)@.accounts.push(
                new_account(
                    registered->Ok_0@.id,
                    final(self)@.accounts.last().credential.created_at,
                    activity_id@,
                    display_name@,
                    password_hash@,
                    email@,
                ),
            ) && registered->Ok_0@ == final(self)@.accounts.last().user,
            display_name@.len() == 0 ==> outcome(registered) == Err::<UserView, RepositoryFault>(
                RepositoryFault::DatabaseError(DomainFault::EmptyDisplayName.message()),
            ),
            display_name@.len() > 0 && registered is Err ==> registered->Err_0@
                == RepositoryFault::Conflict,
            display_name@.len() > 0 && (account_with(
                old(self)@.accounts,
                AccountKey::ActivityId(activity_id@),
            ) is Some || account_with(old(self)@.accounts, AccountKey::Email(email@)) is Some)
                ==> registered is Err,
            display_name@.len() > 0 && nothing_in_the_way(
                old(self)@.accounts,
                activity_id@,
                email@,
            ) ==> registered is Ok,
    {
        let id = random_uuid();
        let now = clock_now();
        proof {
            lemma_position_of(self@.accounts, AccountKey::Id(id), 0);
        }
        self.register_as(id, now, activity_id, display_name, password_hash, email)
    }
}

} // verus!
