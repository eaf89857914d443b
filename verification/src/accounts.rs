//! The in-memory account store (used without a database, and as a cache in
//! front of one): accounts keyed by unique username.

use vstd::prelude::*;

use crate::ids::{hyphenated, new_uuid, uuid_string};
use crate::text::{owned, push_str_chars};

verus! {

/// Avatar given to new accounts.
pub const DEFAULT_AVATAR: &'static str = "tower_01";

/// A registered (or guest) account.
#[derive(Debug)]
pub struct AccountRecord {
    pub id: u128,
    pub username: String,
    pub email: Option<String>,
    pub password_hash: String,
    pub is_guest: bool,
    pub display_name: Option<String>,
    pub avatar_id: String,
    pub auth_provider: String,
    pub github_id: Option<i64>,
}

fn copy_opt(s: &Option<String>) -> (r: Option<String>)
    ensures
        r == *s,
{
    match s {
        Some(x) => Some(x.clone()),
        None => None,
    }
}

impl AccountRecord {
    /// A field-by-field copy.
    pub fn duplicate(&self) -> (r: AccountRecord)
        ensures
            r == *self,
    {
        AccountRecord {
            id: self.id,
            username: self.username.clone(),
            email: copy_opt(&self.email),
            password_hash: self.password_hash.clone(),
            is_guest: self.is_guest,
            display_name: copy_opt(&self.display_name),
            avatar_id: self.avatar_id.clone(),
            auth_provider: self.auth_provider.clone(),
            github_id: self.github_id,
        }
    }
}

/// Why a registration was refused.
#[derive(Clone, Copy, Debug, PartialEq, Eq, Structural)]
pub enum AccountError {
    UsernameTaken,
}

impl AccountError {
    /// The message sent to the client.
    pub fn message(&self) -> (r: &'static str)
        ensures
            r@ == match *self {
                AccountError::UsernameTaken => "Username already taken"@,
            },
    {
        match self {
            AccountError::UsernameTaken => "Username already taken",
        }
    }
}

/// The fields of a freshly registered local account.
pub open spec fn local_account(id: u128, username: Seq<char>, email: Option<String>, password_hash: Seq<char>, r: AccountRecord) -> bool {
    &&& r.id == id
    &&& r.username@ == username
    &&& r.email == email
    &&& r.password_hash@ == password_hash
    &&& !r.is_guest
    &&& r.display_name is None
    &&& r.avatar_id@ == DEFAULT_AVATAR@
    &&& r.auth_provider@ == "local"@
    &&& r.github_id is None
}

/// The username of a guest with a given id: `Guest_` and the first 8
/// characters of the id's text.
pub open spec fn guest_name(id: u128) -> Seq<char> {
    "Guest_"@ + hyphenated(id).take(8)
}

/// The fields of a guest account stored under `id` and named after
/// `name_id` (the id the name was made from before the database assigned
/// the account its own).
pub open spec fn guest_account_named(name_id: u128, id: u128, r: AccountRecord) -> bool {
    &&& r.id == id
    &&& r.username@ == guest_name(name_id)
    &&& r.email is None
    &&& r.password_hash@.len() == 0
    &&& r.is_guest
    &&& r.display_name is None
    &&& r.avatar_id@ == DEFAULT_AVATAR@
    &&& r.auth_provider@ == "guest"@
    &&& r.github_id is None
}

/// The fields of a guest account.
pub open spec fn guest_account(id: u128, r: AccountRecord) -> bool {
    guest_account_named(id, id, r)
}

/// A GitHub user profile, as the GitHub API returns it.
#[derive(Debug)]
pub struct GitHubUser {
    pub id: i64,
    pub login: String,
    pub email: Option<String>,
    pub avatar_url: Option<String>,
}

/// The fields of an account created from a GitHub profile: named by the
/// login, shown under the login, with the default avatar and provider `github`.
pub open spec fn github_account(id: u128, user: GitHubUser, r: AccountRecord) -> bool {
    &&& r.id == id
    &&& r.username@ == user.login@
    &&& r.email == user.email
    &&& r.password_hash@.len() == 0
    &&& !r.is_guest
    &&& r.display_name matches Some(d) && d@ == user.login@
    &&& r.avatar_id@ == DEFAULT_AVATAR@
    &&& r.auth_provider@ == "github"@
    &&& r.github_id == Some(user.id)
}

/// The account created for a GitHub user signing in for the first time.
pub fn github_record(id: u128, user: GitHubUser) -> (r: AccountRecord)
    ensures
        github_account(id, user, r),
{
    let display = user.login.clone();
    AccountRecord {
        id,
        username: user.login,
        email: user.email,
        password_hash: String::new(),
        is_guest: false,
        display_name: Some(display),
        avatar_id: owned(DEFAULT_AVATAR),
        auth_provider: owned("github"),
        github_id: Some(user.id),
    }
}

/// The outcome of a GitHub sign-in.
#[derive(Debug)]
pub enum GitHubSignIn {
    /// An account was already linked to the GitHub id.
    Existing(AccountRecord),
    /// A new account was created from the profile.
    Created(AccountRecord),
}

/// Why a GitHub link was refused.
#[derive(Clone, Copy, Debug, PartialEq, Eq, Structural)]
pub enum LinkError {
    AlreadyLinked,
}

impl LinkError {
    /// The message sent to the client.
    pub fn message(&self) -> (r: &'static str)
        ensures
            r@ == match *self {
                LinkError::AlreadyLinked => "This GitHub account is already linked to another user"@,
            },
    {
        match self {
            LinkError::AlreadyLinked => "This GitHub account is already linked to another user",
        }
    }
}

/// Accounts by username; no two records share a username.
pub struct AccountStore {
    records: Vec<AccountRecord>,
}

/// In a sequence of records with distinct usernames, two records with the
/// same username are the same record.
proof fn lemma_same_name_same_index(recs: Seq<AccountRecord>, a: int, b: int)
    requires
        forall|i: int, j: int| 0 <= i < j < recs.len() ==> recs[i].username@ != recs[j].username@,
        0 <= a < recs.len(),
        0 <= b < recs.len(),
        recs[a].username@ == recs[b].username@,
    ensures
        a == b,
{
    if a < b {
        assert(recs[a].username@ != recs[b].username@);
    } else if b < a {
        assert(recs[b].username@ != recs[a].username@);
    }
}

impl AccountStore {
    /// The accounts, keyed by username.
    pub closed spec fn accounts(&self) -> Map<Seq<char>, AccountRecord> {
        Map::new(
            |name: Seq<char>| exists|i: int| 0 <= i < self.records@.len() && self.records@[i].username@ == name,
            |name: Seq<char>| self.records@[choose|i: int| 0 <= i < self.records@.len() && self.records@[i].username@ == name],
        )
    }

    /// Usernames are unique.
    pub closed spec fn wf(&self) -> bool {
        forall|i: int, j: int| 0 <= i < j < self.records@.len() ==> self.records@[i].username@ != self.records@[j].username@
    }

    /// Records keep the username they are stored under.
    pub proof fn keyed_by_username(&self, name: Seq<char>)
        requires
            self.wf(),
            self.accounts().contains_key(name),
        ensures
            self.accounts()[name].username@ == name,
    {
    }

    /// An empty store.
    pub fn new() -> (r: AccountStore)
        ensures
            r.wf(),
            r.accounts() == Map::<Seq<char>, AccountRecord>::empty(),
    {
        let r = AccountStore { records: Vec::new() };
        assert(r.accounts() =~= Map::<Seq<char>, AccountRecord>::empty());
        r
    }

    /// Number of accounts.
    pub fn len(&self) -> (n: usize)
        requires
            self.wf(),
        ensures
            n == self.accounts().len(),
    {
        proof {
            self.lemma_len();
        }
        self.records.len()
    }

    proof fn lemma_len(&self)
        requires
            self.wf(),
        ensures
            self.accounts().len() == self.records@.len(),
            self.accounts().dom().finite(),
        decreases self.records@.len(),
    {
        let names = self.records@.map_values(|r: AccountRecord| r.username@);
        assert forall|n: Seq<char>| #[trigger] self.accounts().dom().contains(n) == names.to_set().contains(n) by {
            if self.accounts().dom().contains(n) {
                let k = choose|k: int| 0 <= k < self.records@.len() && self.records@[k].username@ == n;
                assert(names[k] == n);
            }
            if names.contains(n) {
                let k = choose|k: int| 0 <= k < names.len() && names[k] == n;
                assert(self.records@[k].username@ == n);
            }
        }
        assert(self.accounts().dom() =~= names.to_set());
        assert(names.no_duplicates()) by {
            assert forall|i: int, j: int| 0 <= i < names.len() && 0 <= j < names.len() && i != j
                implies names[i] != names[j] by {
                if i < j {
                } else {
                }
            }
        }
        names.unique_seq_to_set();
    }

    fn position(&self, username: &str) -> (r: Option<usize>)
        ensures
            match r {
                Some(i) => i < self.records@.len() && self.records@[i as int].username@ == username@,
                None => forall|i: int| 0 <= i < self.records@.len() ==> self.records@[i].username@ != username@,
            },
    {
        let mut i: usize = 0;
        while i < self.records.len()
            invariant
                i <= self.records@.len(),
                forall|j: int| 0 <= j < i ==> self.records@[j].username@ != username@,
            decreases self.records@.len() - i,
        {
            if crate::text::str_equal(self.records[i].username.as_str(), username) {
                return Some(i);
            }
            i += 1;
        }
        None
    }

    /// Look up an account by username.
    pub fn get_account(&self, username: &str) -> (r: Option<AccountRecord>)
        requires
            self.wf(),
        ensures
            match r {
                Some(a) => self.accounts().contains_key(username@) && a == self.accounts()[username@],
                None => !self.accounts().contains_key(username@),
            },
    {
        match self.position(username) {
            Some(i) => {
                let ghost k = choose|k: int| 0 <= k < self.records@.len() && self.records@[k].username@ == username@;
                proof {
                    lemma_same_name_same_index(self.records@, k, i as int);
                }
                Some(self.records[i].duplicate())
            },
            None => None,
        }
    }

    /// Every account, each once, in no particular order.
    pub fn all_accounts(&self) -> (r: Vec<AccountRecord>)
        requires
            self.wf(),
        ensures
            r@.len() == self.accounts().len(),
            forall|i: int| 0 <= i < r@.len() ==> self.accounts().contains_key(#[trigger] r@[i].username@)
                && self.accounts()[r@[i].username@] == r@[i],
            forall|n: Seq<char>| #[trigger] self.accounts().contains_key(n) ==> r@.contains(self.accounts()[n]),
    {
        proof {
            self.lemma_len();
        }
        let mut r: Vec<AccountRecord> = Vec::new();
        let mut i: usize = 0;
        while i < self.records.len()
            invariant
                self.wf(),
                i <= self.records@.len(),
                r@ == self.records@.take(i as int),
            decreases self.records@.len() - i,
        {
            r.push(self.records[i].duplicate());
            assert(self.records@.take(i + 1) =~= self.records@.take(i as int).push(self.records@[i as int]));
            i += 1;
        }
        proof {
            assert(self.records@.take(self.records@.len() as int) =~= self.records@);
            assert forall|i: int| 0 <= i < r@.len() implies self.accounts().contains_key(#[trigger] r@[i].username@)
                && self.accounts()[r@[i].username@] == r@[i] by {
                let name = r@[i].username@;
                let k = choose|k: int| 0 <= k < self.records@.len() && self.records@[k].username@ == name;
                lemma_same_name_same_index(self.records@, k, i);
            }
            assert forall|n: Seq<char>| #[trigger] self.accounts().contains_key(n) implies r@.contains(self.accounts()[n]) by {
                let k = choose|k: int| 0 <= k < self.records@.len() && self.records@[k].username@ == n;
                assert(r@[k] == self.accounts()[n]);
            }
        }
        r
    }

    /// Look up an account by its linked GitHub id.
    pub fn get_account_by_github_id(&self, github_id: i64) -> (r: Option<AccountRecord>)
        requires
            self.wf(),
        ensures
            match r {
                Some(a) => a.github_id == Some(github_id) && self.accounts().contains_key(a.username@)
                    && self.accounts()[a.username@] == a,
                None => forall|n: Seq<char>| #[trigger] self.accounts().contains_key(n)
                    ==> self.accounts()[n].github_id != Some(github_id),
            },
    {
        let mut i: usize = 0;
        while i < self.records.len()
            invariant
                self.wf(),
                i <= self.records@.len(),
                forall|j: int| 0 <= j < i ==> self.records@[j].github_id != Some(github_id),
            decreases self.records@.len() - i,
        {
            if self.records[i].github_id == Some(github_id) {
                let ghost name = self.records@[i as int].username@;
                proof {
                    let k = choose|k: int| 0 <= k < self.records@.len() && self.records@[k].username@ == name;
                    lemma_same_name_same_index(self.records@, k, i as int);
                }
                return Some(self.records[i].duplicate());
            }
            i += 1;
        }
        proof {
            assert forall|n: Seq<char>| #[trigger] self.accounts().contains_key(n)
                implies self.accounts()[n].github_id != Some(github_id) by {
                let k = choose|k: int| 0 <= k < self.records@.len() && self.records@[k].username@ == n;
            }
        }
        None
    }

    /// Look up an account by id.
    pub fn get_account_by_id(&self, id: u128) -> (r: Option<AccountRecord>)
        requires
            self.wf(),
        ensures
            match r {
                Some(a) => a.id == id && self.accounts().contains_key(a.username@) && self.accounts()[a.username@] == a,
                None => forall|n: Seq<char>| #[trigger] self.accounts().contains_key(n) ==> self.accounts()[n].id != id,
            },
    {
        let mut i: usize = 0;
        while i < self.records.len()
            invariant
                self.wf(),
                i <= self.records@.len(),
                forall|j: int| 0 <= j < i ==> self.records@[j].id != id,
            decreases self.records@.len() - i,
        {
            if self.records[i].id == id {
                let ghost name = self.records@[i as int].username@;
                proof {
                    let k = choose|k: int| 0 <= k < self.records@.len() && self.records@[k].username@ == name;
                    lemma_same_name_same_index(self.records@, k, i as int);
                }
                return Some(self.records[i].duplicate());
            }
            i += 1;
        }
        proof {
            assert forall|n: Seq<char>| #[trigger] self.accounts().contains_key(n)
                implies self.accounts()[n].id != id by {
                let k = choose|k: int| 0 <= k < self.records@.len() && self.records@[k].username@ == n;
            }
        }
        None
    }

    /// Store an account under its username, replacing any account of that name.
    pub fn cache_account(&mut self, record: AccountRecord)
        requires
            old(self).wf(),
        ensures
            final(self).wf(),
            final(self).accounts() == old(self).accounts().insert(record.username@, record),
    {
        let ghost name = record.username@;
        let ghost before = self.records@;
        match self.position(record.username.as_str()) {
            Some(i) => {
                self.records.set(i, record);
                proof {
                    assert forall|a: int, b: int| 0 <= a < b < self.records@.len()
                        implies self.records@[a].username@ != self.records@[b].username@ by {
                        assert(before[a].username@ != before[b].username@);
                    }
                    assert forall|n: Seq<char>| #[trigger] self.accounts().contains_key(n)
                        == old(self).accounts().insert(name, record).contains_key(n) by {
                        if n != name {
                            if old(self).accounts().contains_key(n) {
                                let k = choose|k: int| 0 <= k < before.len() && before[k].username@ == n;
                                assert(self.records@[k].username@ == n);
                            }
                            if self.accounts().contains_key(n) {
                                let k = choose|k: int| 0 <= k < self.records@.len() && self.records@[k].username@ == n;
                                assert(before[k].username@ == n);
                            }
                        } else {
                            assert(self.records@[i as int].username@ == n);
                        }
                    }
                    assert forall|n: Seq<char>| #[trigger] self.accounts().contains_key(n)
                        implies self.accounts()[n] == old(self).accounts().insert(name, record)[n] by {
                        let k = choose|k: int| 0 <= k < self.records@.len() && self.records@[k].username@ == n;
                        if n == name {
                            lemma_same_name_same_index(self.records@, k, i as int);
                        } else {
                            let k0 = choose|k0: int| 0 <= k0 < before.len() && before[k0].username@ == n;
                            lemma_same_name_same_index(self.records@, k, k0);
                        }
                    }
                    assert(self.accounts() =~= old(self).accounts().insert(name, record));
                }
            },
            None => {
                self.records.push(record);
                proof {
                    assert forall|a: int, b: int| 0 <= a < b < self.records@.len()
                        implies self.records@[a].username@ != self.records@[b].username@ by {
                        if b < before.len() {
                            assert(before[a].username@ != before[b].username@);
                        }
                    }
                    assert forall|n: Seq<char>| #[trigger] self.accounts().contains_key(n)
                        == old(self).accounts().insert(name, record).contains_key(n) by {
                        if n != name {
                            if old(self).accounts().contains_key(n) {
                                let k = choose|k: int| 0 <= k < before.len() && before[k].username@ == n;
                                assert(self.records@[k].username@ == n);
                            }
                        } else {
                            assert(self.records@[before.len() as int].username@ == n);
                        }
                    }
                    assert forall|n: Seq<char>| #[trigger] self.accounts().contains_key(n)
                        implies self.accounts()[n] == old(self).accounts().insert(name, record)[n] by {
                        let k = choose|k: int| 0 <= k < self.records@.len() && self.records@[k].username@ == n;
                        if n == name {
                            if k != before.len() {
                                assert(before[k].username@ == n);
                            }
                        } else {
                            let k0 = choose|k0: int| 0 <= k0 < before.len() && before[k0].username@ == n;
                            lemma_same_name_same_index(self.records@, k, k0);
                        }
                    }
                    assert(self.accounts() =~= old(self).accounts().insert(name, record));
                }
            },
        }
    }

    /// Register a local account with a given id: refused if the username is
    /// taken, otherwise stored with the default avatar and provider `local`.
    pub fn register_account_with_id(
        &mut self,
        id: u128,
        username: String,
        email: Option<String>,
        password_hash: String,
    ) -> (r: Result<AccountRecord, AccountError>)
        requires
            old(self).wf(),
        ensures
            final(self).wf(),
            old(self).accounts().contains_key(username@) ==> r == Err::<AccountRecord, AccountError>(AccountError::UsernameTaken)
                && final(self).accounts() == old(self).accounts(),
            !old(self).accounts().contains_key(username@) ==> match r {
                Ok(a) => local_account(id, username@, email, password_hash@, a)
                    && final(self).accounts() == old(self).accounts().insert(username@, a),
                Err(_) => false,
            },
    {
        if self.position(username.as_str()).is_some() {
            return Err(AccountError::UsernameTaken);
        }
        let record = local_record(id, username, email, password_hash);
        let copy = record.duplicate();
        self.cache_account(record);
        Ok(copy)
    }

    /// Register a local account under a fresh random id.
    pub fn register_account(
        &mut self,
        username: String,
        email: Option<String>,
        password_hash: String,
    ) -> (r: Result<AccountRecord, AccountError>)
        requires
            old(self).wf(),
        ensures
            final(self).wf(),
            old(self).accounts().contains_key(username@) ==> r == Err::<AccountRecord, AccountError>(AccountError::UsernameTaken)
                && final(self).accounts() == old(self).accounts(),
            !old(self).accounts().contains_key(username@) ==> match r {
                Ok(a) => local_account(a.id, username@, email, password_hash@, a)
                    && final(self).accounts() == old(self).accounts().insert(username@, a),
                Err(_) => false,
            },
    {
        let id = new_uuid();
        self.register_account_with_id(id, username, email, password_hash)
    }

    /// Register a guest with a given id (`Guest_` and the first 8 characters
    /// of the id's text); the record replaces any account of that name.
    pub fn register_guest_with_id(&mut self, id: u128) -> (r: AccountRecord)
        requires
            old(self).wf(),
        ensures
            final(self).wf(),
            guest_account(id, r),
            final(self).accounts() == old(self).accounts().insert(r.username@, r),
    {
        let record = guest_record(id);
        let copy = record.duplicate();
        self.cache_account(record);
        copy
    }

    /// Cache a guest account stored under `id` and named after `name_id`;
    /// the record replaces any account of that name.
    pub fn cache_guest(&mut self, name_id: u128, id: u128) -> (r: AccountRecord)
        requires
            old(self).wf(),
        ensures
            final(self).wf(),
            guest_account_named(name_id, id, r),
            final(self).accounts() == old(self).accounts().insert(r.username@, r),
    {
        let record = guest_record_named(name_id, id);
        let copy = record.duplicate();
        self.cache_account(record);
        copy
    }

    /// Register a guest under a fresh random id.
    pub fn register_guest(&mut self) -> (r: AccountRecord)
        requires
            old(self).wf(),
        ensures
            final(self).wf(),
            guest_account(r.id, r),
            final(self).accounts() == old(self).accounts().insert(r.username@, r),
    {
        let id = new_uuid();
        self.register_guest_with_id(id)
    }
}

impl AccountStore {
    /// Sign in with a GitHub profile: the account linked to its id if there is
    /// one, else a new account (given `id`) named by the login, stored under
    /// that name.
    pub fn sign_in_github_with_id(&mut self, id: u128, user: GitHubUser) -> (r: GitHubSignIn)
        requires
            old(self).wf(),
        ensures
            final(self).wf(),
            match r {
                GitHubSignIn::Existing(a) => a.github_id == Some(user.id)
                    && old(self).accounts().contains_key(a.username@)
                    && old(self).accounts()[a.username@] == a
                    && final(self).accounts() == old(self).accounts(),
                GitHubSignIn::Created(a) => github_account(id, user, a)
                    && (forall|n: Seq<char>| #[trigger] old(self).accounts().contains_key(n)
                        ==> old(self).accounts()[n].github_id != Some(user.id))
                    && final(self).accounts() == old(self).accounts().insert(user.login@, a),
            },
    {
        match self.get_account_by_github_id(user.id) {
            Some(a) => GitHubSignIn::Existing(a),
            None => {
                let record = github_record(id, user);
                let copy = record.duplicate();
                self.cache_account(record);
                GitHubSignIn::Created(copy)
            },
        }
    }

    /// Sign in with a GitHub profile, creating a new account under a fresh
    /// random id if none is linked to it.
    pub fn sign_in_github(&mut self, user: GitHubUser) -> (r: GitHubSignIn)
        requires
            old(self).wf(),
        ensures
            final(self).wf(),
            match r {
                GitHubSignIn::Existing(a) => a.github_id == Some(user.id)
                    && old(self).accounts().contains_key(a.username@)
                    && old(self).accounts()[a.username@] == a
                    && final(self).accounts() == old(self).accounts(),
                GitHubSignIn::Created(a) => github_account(a.id, user, a)
                    && (forall|n: Seq<char>| #[trigger] old(self).accounts().contains_key(n)
                        ==> old(self).accounts()[n].github_id != Some(user.id))
                    && final(self).accounts() == old(self).accounts().insert(user.login@, a),
            },
    {
        let id = new_uuid();
        self.sign_in_github_with_id(id, user)
    }
}

impl AccountStore {
    fn position_of_id(&self, id: u128) -> (r: Option<usize>)
        ensures
            match r {
                Some(i) => i < self.records@.len() && self.records@[i as int].id == id
                    && forall|j: int| 0 <= j < i ==> self.records@[j].id != id,
                None => forall|j: int| 0 <= j < self.records@.len() ==> self.records@[j].id != id,
            },
    {
        let mut i: usize = 0;
        while i < self.records.len()
            invariant
                i <= self.records@.len(),
                forall|j: int| 0 <= j < i ==> self.records@[j].id != id,
            decreases self.records@.len() - i,
        {
            if self.records[i].id == id {
                return Some(i);
            }
            i += 1;
        }
        None
    }

    /// The username of the account with an id, if any.
    pub fn username_of(&self, id: u128) -> (r: Option<String>)
        requires
            self.wf(),
        ensures
            match r {
                Some(n) => self.accounts().contains_key(n@) && self.accounts()[n@].id == id,
                None => forall|n: Seq<char>| #[trigger] self.accounts().contains_key(n) ==> self.accounts()[n].id != id,
            },
    {
        match self.get_account_by_id(id) {
            Some(a) => Some(a.username),
            None => None,
        }
    }

    /// Apply a profile update to the account with an id: the display name
    /// when one is given, and the avatar. Returns false if there is no such account.
    pub fn update_profile(&mut self, id: u128, display_name: Option<String>, avatar_id: String) -> (found: bool)
        requires
            old(self).wf(),
        ensures
            final(self).wf(),
            found == exists|n: Seq<char>| #[trigger] old(self).accounts().contains_key(n) && old(self).accounts()[n].id == id,
            !found ==> final(self).accounts() == old(self).accounts(),
            found ==> exists|n: Seq<char>| #[trigger] old(self).accounts().contains_key(n) && old(self).accounts()[n].id == id
                && final(self).accounts() == old(self).accounts().insert(n, AccountRecord {
                    display_name: if display_name is Some { display_name } else { old(self).accounts()[n].display_name },
                    avatar_id: avatar_id,
                    ..old(self).accounts()[n]
                }),
    {
        match self.get_account_by_id(id) {
            Some(a) => {
                let ghost n = a.username@;
                let mut updated = a;
                if display_name.is_some() {
                    updated.display_name = display_name;
                }
                updated.avatar_id = avatar_id;
                self.cache_account(updated);
                true
            },
            None => false,
        }
    }

    /// Link a GitHub id to the account with an id. Returns false if there is
    /// no such account.
    pub fn link_github(&mut self, id: u128, github_id: i64) -> (found: bool)
        requires
            old(self).wf(),
        ensures
            final(self).wf(),
            found == exists|n: Seq<char>| #[trigger] old(self).accounts().contains_key(n) && old(self).accounts()[n].id == id,
            !found ==> final(self).accounts() == old(self).accounts(),
            found ==> exists|n: Seq<char>| #[trigger] old(self).accounts().contains_key(n) && old(self).accounts()[n].id == id
                && final(self).accounts() == old(self).accounts().insert(n, AccountRecord {
                    github_id: Some(github_id),
                    ..old(self).accounts()[n]
                }),
    {
        match self.get_account_by_id(id) {
            Some(a) => {
                let mut updated = a;
                updated.github_id = Some(github_id);
                self.cache_account(updated);
                true
            },
            None => false,
        }
    }

    /// Link a GitHub id to the account `id`, refused when some account
    /// already has that GitHub id. An unknown `id` links nothing and is no
    /// error.
    pub fn link_github_account(&mut self, id: u128, github_id: i64) -> (r: Result<(), LinkError>)
        requires
            old(self).wf(),
        ensures
            final(self).wf(),
            (exists|n: Seq<char>| #[trigger] old(self).accounts().contains_key(n)
                && old(self).accounts()[n].github_id == Some(github_id))
                <==> r == Err::<(), LinkError>(LinkError::AlreadyLinked),
            r is Err ==> final(self).accounts() == old(self).accounts(),
            r is Ok && (exists|n: Seq<char>| #[trigger] old(self).accounts().contains_key(n)
                && old(self).accounts()[n].id == id) ==> exists|n: Seq<char>|
                #[trigger] old(self).accounts().contains_key(n) && old(self).accounts()[n].id == id
                && final(self).accounts() == old(self).accounts().insert(n, AccountRecord {
                    github_id: Some(github_id),
                    ..old(self).accounts()[n]
                }),
            r is Ok && !(exists|n: Seq<char>| #[trigger] old(self).accounts().contains_key(n)
                && old(self).accounts()[n].id == id) ==> final(self).accounts() == old(self).accounts(),
    {
        match self.get_account_by_github_id(github_id) {
            Some(_) => Err(LinkError::AlreadyLinked),
            None => {
                self.link_github(id, github_id);
                Ok(())
            },
        }
    }

    /// Remove the account with an id. Returns false if there is no such account.
    pub fn remove_by_id(&mut self, id: u128) -> (found: bool)
        requires
            old(self).wf(),
        ensures
            final(self).wf(),
            found == exists|n: Seq<char>| #[trigger] old(self).accounts().contains_key(n) && old(self).accounts()[n].id == id,
            !found ==> final(self).accounts() == old(self).accounts(),
            found ==> exists|n: Seq<char>| #[trigger] old(self).accounts().contains_key(n) && old(self).accounts()[n].id == id
                && final(self).accounts() == old(self).accounts().remove(n),
    {
        let ghost before = self.records@;
        match self.position_of_id(id) {
            Some(i) => {
                let ghost name = before[i as int].username@;
                proof {
                    let k = choose|k: int| 0 <= k < before.len() && before[k].username@ == name;
                    lemma_same_name_same_index(before, k, i as int);
                    assert(old(self).accounts().contains_key(name) && old(self).accounts()[name].id == id);
                }
                self.records.remove(i);
                proof {
                    assert forall|a: int, b: int| 0 <= a < b < self.records@.len()
                        implies self.records@[a].username@ != self.records@[b].username@ by {
                        let a0 = if a < i { a } else { a + 1 };
                        let b0 = if b < i { b } else { b + 1 };
                        assert(self.records@[a] == before[a0]);
                        assert(self.records@[b] == before[b0]);
                    }
                    assert forall|n: Seq<char>| #[trigger] self.accounts().contains_key(n)
                        == old(self).accounts().remove(name).contains_key(n) by {
                        if self.accounts().contains_key(n) {
                            let k = choose|k: int| 0 <= k < self.records@.len() && self.records@[k].username@ == n;
                            let k0 = if k < i { k } else { k + 1 };
                            assert(before[k0].username@ == n);
                            if n == name {
                                assert(before[i as int].username@ == n);
                                lemma_same_name_same_index(before, k0, i as int);
                            }
                        }
                        if old(self).accounts().remove(name).contains_key(n) {
                            let k0 = choose|k0: int| 0 <= k0 < before.len() && before[k0].username@ == n;
                            assert(k0 != i);
                            let k = if k0 < i { k0 } else { k0 - 1 };
                            assert(self.records@[k].username@ == n);
                        }
                    }
                    assert forall|n: Seq<char>| #[trigger] self.accounts().contains_key(n)
                        implies self.accounts()[n] == old(self).accounts().remove(name)[n] by {
                        let k = choose|k: int| 0 <= k < self.records@.len() && self.records@[k].username@ == n;
                        let k0 = choose|k0: int| 0 <= k0 < before.len() && before[k0].username@ == n;
                        let k1 = if k < i { k } else { k + 1 };
                        assert(before[k1].username@ == n);
                        lemma_same_name_same_index(before, k1, k0);
                    }
                    assert(self.accounts() =~= old(self).accounts().remove(name));
                }
                true
            },
            None => {
                proof {
                    assert forall|n: Seq<char>| #[trigger] old(self).accounts().contains_key(n)
                        implies old(self).accounts()[n].id != id by {
                        let k = choose|k: int| 0 <= k < before.len() && before[k].username@ == n;
                    }
                }
                false
            },
        }
    }
}

/// The local account record of a registration.
pub fn local_record(id: u128, username: String, email: Option<String>, password_hash: String) -> (r: AccountRecord)
    ensures
        local_account(id, username@, email, password_hash@, r),
{
    AccountRecord {
        id,
        username,
        email,
        password_hash,
        is_guest: false,
        display_name: None,
        avatar_id: owned(DEFAULT_AVATAR),
        auth_provider: owned("local"),
        github_id: None,
    }
}

/// The guest account of an id.
pub fn guest_record(id: u128) -> (r: AccountRecord)
    ensures
        guest_account(id, r),
{
    guest_record_named(id, id)
}

/// A guest account stored under `id`, named after `name_id`.
pub fn guest_record_named(name_id: u128, id: u128) -> (r: AccountRecord)
    ensures
        guest_account_named(name_id, id, r),
{
    let text = uuid_string(name_id);
    let mut username = owned("Guest_");
    let prefix = crate::text::take_chars(text.as_str(), 8);
    push_str_chars(&mut username, &prefix);
    proof {
        reveal_strlit("Guest_");
    }
    AccountRecord {
        id,
        username,
        email: None,
        password_hash: String::new(),
        is_guest: true,
        display_name: None,
        avatar_id: owned(DEFAULT_AVATAR),
        auth_provider: owned("guest"),
        github_id: None,
    }
}

/// Registering a taken username fails and changes nothing; registering a
/// free one makes the account retrievable by that username.
pub proof fn registration_then_lookup(before: Map<Seq<char>, AccountRecord>, name: Seq<char>, a: AccountRecord)
    ensures
        before.insert(name, a).contains_key(name),
        before.insert(name, a)[name] == a,
        forall|n: Seq<char>| n != name ==> #[trigger] before.insert(name, a).contains_key(n) == before.contains_key(n),
{
}

} // verus!
