//! Account repository: accounts, their flags, e-mails and usernames.
//!
//! Usernames and e-mails are unique (I-AR-7, I-AR-8). Reads and
//! compare-and-set operations act on the repository directly; inserts and
//! updates go through a transaction, which works on a copy and replaces the
//! repository state when committed.

use vstd::prelude::*;
use crate::clock::now_micros;
use crate::dto::repo::OwnedLoginCredentials;
use crate::entity::{
    Account, AccountFlags, AccountView, ClientPasswordKdf, Email, ServerPasswordHashAlgorithm,
    Username,
};
use crate::ids::AccountId;
use crate::keyed::{
    has_key, keys_unique, lemma_lookup_index, lemma_lookup_none, lemma_lookup_push,
    lemma_lookup_found, lemma_lookup_update, lemma_select_complete, lemma_select_sound,
    lemma_select_step, lemma_unique_push, lookup, select,
};
use crate::repo::error::{RepoError, RepoResult};

verus! {

/// Mock account repository implementation.
pub struct MockAccountRepoImpl {
    accounts: Vec<Account>,
    emails: Vec<Email>,
    usernames: Vec<Username>,
    account_flags: Vec<AccountFlags>,
}

/// A transaction on the account repository, working on a copy of it.
pub struct MockAccountRepoTransactionImpl {
    state: MockAccountRepoImpl,
}

impl MockAccountRepoTransactionImpl {
    /// The working copy.
    pub closed spec fn state(&self) -> MockAccountRepoImpl {
        self.state
    }
}

/// Which usernames of `id` a query asks for: the primary one, or the
/// non-expiring aliases.
pub open spec fn username_query(id: AccountId, primary: bool) -> spec_fn(Username) -> bool {
    |u: Username| u.account_id == id && if primary {
        u.is_primary
    } else {
        !u.is_primary && u.expires_at is None
    }
}

/// Which e-mails of `id` a query asks for: the primary one, or the
/// secondary ones.
pub open spec fn email_query(id: AccountId, primary: bool) -> spec_fn(Email) -> bool {
    |e: Email| e.account_id == id && e.is_primary == primary
}

/// The username of a username entity.
pub open spec fn username_of() -> spec_fn(Username) -> String {
    |u: Username| u.username
}

/// The address of an e-mail entity.
pub open spec fn email_of() -> spec_fn(Email) -> String {
    |e: Email| e.email
}

/// `e` with its primary flag set to `p`.
pub open spec fn with_primary(e: Email, p: bool) -> Email {
    Email { email: e.email, account_id: e.account_id, is_primary: p, created_at: e.created_at }
}

/// `a` with new password credentials.
pub open spec fn with_password(
    a: AccountView,
    h: String,
    kdf: ClientPasswordKdf,
    alg: ServerPasswordHashAlgorithm,
) -> AccountView {
    AccountView {
        password_hash: Some(h),
        client_password_kdf: kdf,
        server_password_hash_algorithm: alg,
        ..a
    }
}

/// Both e-mails exist, are primary, and belong to the same account.
pub open spec fn primary_pair(a: Option<Email>, b: Option<Email>) -> bool {
    &&& a is Some && b is Some
    &&& a->0.is_primary && b->0.is_primary
    &&& a->0.account_id == b->0.account_id
}

/// The first element of `s`, if any.
pub open spec fn first<T>(s: Seq<T>) -> Option<T> {
    if s.len() > 0 {
        Some(s[0])
    } else {
        None
    }
}

/// Login credentials read from an account.
pub open spec fn credentials(a: AccountView, id: AccountId, verified: bool) -> OwnedLoginCredentials {
    OwnedLoginCredentials {
        account_id: id,
        is_email_verified: verified,
        password_hash: a.password_hash,
        server_password_hash_algorithm: a.server_password_hash_algorithm,
    }
}

impl MockAccountRepoImpl {
    /// Accounts, keyed by id.
    pub closed spec fn accounts_seq(&self) -> Seq<(AccountId, AccountView)> {
        self.accounts@.map_values(|a: Account| (a.account_id, a@))
    }

    /// E-mails, keyed by address.
    pub closed spec fn emails_seq(&self) -> Seq<(Seq<char>, Email)> {
        self.emails@.map_values(|e: Email| (e.email@, e))
    }

    /// Usernames, keyed by name.
    pub closed spec fn usernames_seq(&self) -> Seq<(Seq<char>, Username)> {
        self.usernames@.map_values(|u: Username| (u.username@, u))
    }

    /// Flags, keyed by account.
    pub closed spec fn flags_seq(&self) -> Seq<(AccountId, AccountFlags)> {
        self.account_flags@.map_values(|f: AccountFlags| (f.account_id, f))
    }

    /// The e-mails in table order.
    pub closed spec fn email_list(&self) -> Seq<Email> {
        self.emails@
    }

    /// The usernames in table order.
    pub closed spec fn username_list(&self) -> Seq<Username> {
        self.usernames@
    }

    /// The table invariant: no key twice in any table.
    pub closed spec fn wf(&self) -> bool {
        &&& keys_unique(self.accounts_seq())
        &&& keys_unique(self.emails_seq())
        &&& keys_unique(self.usernames_seq())
        &&& keys_unique(self.flags_seq())
    }

    /// The account with this id.
    pub open spec fn account(&self, id: AccountId) -> Option<AccountView> {
        lookup(self.accounts_seq(), id)
    }

    /// The e-mail entity of this address.
    pub open spec fn email(&self, e: Seq<char>) -> Option<Email> {
        lookup(self.emails_seq(), e)
    }

    /// The username entity of this name.
    pub open spec fn username(&self, u: Seq<char>) -> Option<Username> {
        lookup(self.usernames_seq(), u)
    }

    /// The flags of this account.
    pub open spec fn flags(&self, id: AccountId) -> Option<AccountFlags> {
        lookup(self.flags_seq(), id)
    }

    /// `self` and `other` hold the same accounts, flags, e-mails and
    /// usernames, in the same order.
    pub open spec fn same_contents(&self, other: &Self) -> bool {
        &&& self.accounts_seq() == other.accounts_seq()
        &&& self.emails_seq() == other.emails_seq()
        &&& self.usernames_seq() == other.usernames_seq()
        &&& self.flags_seq() == other.flags_seq()
        &&& self.email_list() == other.email_list()
        &&& self.username_list() == other.username_list()
    }

    /// Creates an empty repository.
    pub fn new() -> (r: Self)
        ensures
            r.wf(),
            forall|id: AccountId| r.account(id) is None && r.flags(id) is None,
            forall|e: Seq<char>| r.email(e) is None,
            forall|u: Seq<char>| r.username(u) is None,
    {
        let r = MockAccountRepoImpl {
            accounts: Vec::new(),
            emails: Vec::new(),
            usernames: Vec::new(),
            account_flags: Vec::new(),
        };
        assert(r.accounts_seq() =~= Seq::empty());
        assert(r.emails_seq() =~= Seq::empty());
        assert(r.usernames_seq() =~= Seq::empty());
        assert(r.flags_seq() =~= Seq::empty());
        r
    }

    /// Create a new mock repository.
    pub fn boxed_new() -> (r: Box<Self>)
        ensures
            r.wf(),
            forall|id: AccountId| r.account(id) is None && r.flags(id) is None,
            forall|e: Seq<char>| r.email(e) is None,
            forall|u: Seq<char>| r.username(u) is None,
    {
        Box::new(Self::new())
    }

    fn find_account(&self, id: AccountId) -> (r: Option<usize>)
        requires
            self.wf(),
        ensures
            match r {
                Some(i) => i < self.accounts@.len() && self.accounts@[i as int].account_id == id
                    && self.account(id) == Some(self.accounts@[i as int]@),
                None => self.account(id) is None && !has_key(self.accounts_seq(), id),
            },
    {
        let mut i: usize = 0;
        while i < self.accounts.len()
            invariant
                i <= self.accounts.len(),
                self.wf(),
                forall|j: int| 0 <= j < i ==> self.accounts@[j].account_id != id,
            decreases self.accounts.len() - i,
        {
            if self.accounts[i].account_id == id {
                proof {
                    lemma_lookup_index(self.accounts_seq(), i as int);
                }
                return Some(i);
            }
            i = i + 1;
        }
        proof {
            assert(!has_key(self.accounts_seq(), id)) by {
                if has_key(self.accounts_seq(), id) {
                    let j = choose|j: int| 0 <= j < self.accounts_seq().len() && self.accounts_seq()[j].0 == id;
                    assert(self.accounts@[j].account_id == id);
                }
            }
            lemma_lookup_none(self.accounts_seq(), id);
        }
        None
    }

    fn find_flags(&self, id: AccountId) -> (r: Option<usize>)
        requires
            self.wf(),
        ensures
            match r {
                Some(i) => i < self.account_flags@.len() && self.account_flags@[i as int].account_id == id
                    && self.flags(id) == Some(self.account_flags@[i as int]),
                None => self.flags(id) is None && !has_key(self.flags_seq(), id),
            },
    {
        let mut i: usize = 0;
        while i < self.account_flags.len()
            invariant
                i <= self.account_flags.len(),
                self.wf(),
                forall|j: int| 0 <= j < i ==> self.account_flags@[j].account_id != id,
            decreases self.account_flags.len() - i,
        {
            if self.account_flags[i].account_id == id {
                proof {
                    lemma_lookup_index(self.flags_seq(), i as int);
                }
                return Some(i);
            }
            i = i + 1;
        }
        proof {
            assert(!has_key(self.flags_seq(), id)) by {
                if has_key(self.flags_seq(), id) {
                    let j = choose|j: int| 0 <= j < self.flags_seq().len() && self.flags_seq()[j].0 == id;
                    assert(self.account_flags@[j].account_id == id);
                }
            }
            lemma_lookup_none(self.flags_seq(), id);
        }
        None
    }

    fn find_email(&self, e: &String) -> (r: Option<usize>)
        requires
            self.wf(),
        ensures
            match r {
                Some(i) => i < self.emails@.len() && self.emails@[i as int].email@ == e@
                    && self.email(e@) == Some(self.emails@[i as int]),
                None => self.email(e@) is None && !has_key(self.emails_seq(), e@),
            },
    {
        let mut i: usize = 0;
        while i < self.emails.len()
            invariant
                i <= self.emails.len(),
                self.wf(),
                forall|j: int| 0 <= j < i ==> self.emails@[j].email@ != e@,
            decreases self.emails.len() - i,
        {
            if self.emails[i].email.eq(e) {
                proof {
                    lemma_lookup_index(self.emails_seq(), i as int);
                }
                return Some(i);
            }
            i = i + 1;
        }
        proof {
            assert(!has_key(self.emails_seq(), e@)) by {
                if has_key(self.emails_seq(), e@) {
                    let j = choose|j: int| 0 <= j < self.emails_seq().len() && self.emails_seq()[j].0 == e@;
                    assert(self.emails@[j].email@ == e@);
                }
            }
            lemma_lookup_none(self.emails_seq(), e@);
        }
        None
    }

    fn find_username(&self, u: &String) -> (r: Option<usize>)
        requires
            self.wf(),
        ensures
            match r {
                Some(i) => i < self.usernames@.len() && self.usernames@[i as int].username@ == u@
                    && self.username(u@) == Some(self.usernames@[i as int]),
                None => self.username(u@) is None && !has_key(self.usernames_seq(), u@),
            },
    {
        let mut i: usize = 0;
        while i < self.usernames.len()
            invariant
                i <= self.usernames.len(),
                self.wf(),
                forall|j: int| 0 <= j < i ==> self.usernames@[j].username@ != u@,
            decreases self.usernames.len() - i,
        {
            if self.usernames[i].username.eq(u) {
                proof {
                    lemma_lookup_index(self.usernames_seq(), i as int);
                }
                return Some(i);
            }
            i = i + 1;
        }
        proof {
            assert(!has_key(self.usernames_seq(), u@)) by {
                if has_key(self.usernames_seq(), u@) {
                    let j = choose|j: int| 0 <= j < self.usernames_seq().len() && self.usernames_seq()[j].0 == u@;
                    assert(self.usernames@[j].username@ == u@);
                }
            }
            lemma_lookup_none(self.usernames_seq(), u@);
        }
        None
    }

    /// Login credentials of the account.
    pub fn get_login_credentials_by_account_id(&self, account_id: AccountId) -> (r: Option<OwnedLoginCredentials>)
        requires
            self.wf(),
            self.account(account_id) is Some ==> self.flags(account_id) is Some,
        ensures
            r == match self.account(account_id) {
                Some(a) => Some(credentials(a, account_id, self.flags(account_id)->0.is_email_verified)),
                None => None,
            },
    {
        match self.find_account(account_id) {
            Some(i) => {
                let fi = self.find_flags(account_id).unwrap();
                let a = &self.accounts[i];
                Some(
                    OwnedLoginCredentials {
                        account_id,
                        password_hash: crate::entity::copy_opt_string(&a.password_hash),
                        is_email_verified: self.account_flags[fi].is_email_verified,
                        server_password_hash_algorithm: a.server_password_hash_algorithm,
                    },
                )
            },
            None => None,
        }
    }

    /// Login credentials of the account that owns the e-mail; an e-mail
    /// login counts as verified.
    pub fn get_login_credentials_by_email(&self, email: &str) -> (r: Option<OwnedLoginCredentials>)
        requires
            self.wf(),
            self.email(email@) matches Some(e) ==> self.account(e.account_id) is Some,
        ensures
            r == match self.email(email@) {
                Some(e) => Some(credentials(self.account(e.account_id)->0, e.account_id, true)),
                None => None,
            },
    {
        let key = email.to_owned();
        match self.find_email(&key) {
            Some(i) => {
                let owner = self.emails[i].account_id;
                let ai = self.find_account(owner).unwrap();
                let a = &self.accounts[ai];
                Some(
                    OwnedLoginCredentials {
                        account_id: owner,
                        password_hash: crate::entity::copy_opt_string(&a.password_hash),
                        is_email_verified: true,
                        server_password_hash_algorithm: a.server_password_hash_algorithm,
                    },
                )
            },
            None => None,
        }
    }

    /// The non-expiring username entity of this name.
    pub open spec fn live_username(&self, u: Seq<char>) -> Option<Username> {
        match self.username(u) {
            Some(n) => if n.expires_at is None {
                Some(n)
            } else {
                None
            },
            None => None,
        }
    }

    /// Login credentials of the account that owns the non-expiring username.
    pub fn get_login_credentials_by_username(&self, username: &str) -> (r: Option<OwnedLoginCredentials>)
        requires
            self.wf(),
            self.live_username(username@) matches Some(n) ==> self.account(n.account_id) is Some
                && self.flags(n.account_id) is Some,
        ensures
            r == match self.live_username(username@) {
                Some(n) => Some(
                    credentials(
                        self.account(n.account_id)->0,
                        n.account_id,
                        self.flags(n.account_id)->0.is_email_verified,
                    ),
                ),
                None => None,
            },
    {
        let key = username.to_owned();
        match self.find_username(&key) {
            Some(i) => {
                if self.usernames[i].expires_at.is_some() {
                    return None;
                }
                let owner = self.usernames[i].account_id;
                let ai = self.find_account(owner).unwrap();
                let fi = self.find_flags(owner).unwrap();
                let a = &self.accounts[ai];
                Some(
                    OwnedLoginCredentials {
                        account_id: owner,
                        password_hash: crate::entity::copy_opt_string(&a.password_hash),
                        is_email_verified: self.account_flags[fi].is_email_verified,
                        server_password_hash_algorithm: a.server_password_hash_algorithm,
                    },
                )
            },
            None => None,
        }
    }

    /// Client-side KDF of the account that owns the e-mail.
    pub fn get_client_password_kdf_by_email(&self, email: &str) -> (r: Option<ClientPasswordKdf>)
        requires
            self.wf(),
            self.email(email@) matches Some(e) ==> self.account(e.account_id) is Some,
        ensures
            r == match self.email(email@) {
                Some(e) => Some(self.account(e.account_id)->0.client_password_kdf),
                None => None,
            },
    {
        let key = email.to_owned();
        match self.find_email(&key) {
            Some(i) => {
                let ai = self.find_account(self.emails[i].account_id).unwrap();
                Some(self.accounts[ai].client_password_kdf.copy())
            },
            None => None,
        }
    }

    /// Client-side KDF of the account that owns the non-expiring username.
    pub fn get_client_password_kdf_by_username(&self, username: &str) -> (r: Option<ClientPasswordKdf>)
        requires
            self.wf(),
            self.live_username(username@) matches Some(n) ==> self.account(n.account_id) is Some,
        ensures
            r == match self.live_username(username@) {
                Some(n) => Some(self.account(n.account_id)->0.client_password_kdf),
                None => None,
            },
    {
        let key = username.to_owned();
        match self.find_username(&key) {
            Some(i) => {
                if self.usernames[i].expires_at.is_some() {
                    return None;
                }
                let ai = self.find_account(self.usernames[i].account_id).unwrap();
                Some(self.accounts[ai].client_password_kdf.copy())
            },
            None => None,
        }
    }

    /// Client-side KDF of the account.
    pub fn get_client_password_kdf_by_account_id(&self, account_id: AccountId) -> (r: Option<ClientPasswordKdf>)
        requires
            self.wf(),
        ensures
            r == match self.account(account_id) {
                Some(a) => Some(a.client_password_kdf),
                None => None,
            },
    {
        match self.find_account(account_id) {
            Some(i) => Some(self.accounts[i].client_password_kdf.copy()),
            None => None,
        }
    }

    fn collect_usernames(&self, id: AccountId, primary: bool) -> (r: Vec<String>)
        ensures
            r@ == select(self.username_list(), username_query(id, primary), username_of()),
    {
        let mut r: Vec<String> = Vec::new();
        let mut i: usize = 0;
        while i < self.usernames.len()
            invariant
                i <= self.usernames.len(),
                r@ == select(self.username_list().take(i as int), username_query(id, primary), username_of()),
            decreases self.usernames.len() - i,
        {
            proof {
                lemma_select_step(self.username_list(), username_query(id, primary), username_of(), i as int);
            }
            let u = &self.usernames[i];
            let keep = u.account_id == id && if primary {
                u.is_primary
            } else {
                !u.is_primary && u.expires_at.is_none()
            };
            if keep {
                r.push(u.username.clone());
            }
            i = i + 1;
        }
        assert(self.username_list().take(self.usernames.len() as int) =~= self.username_list());
        r
    }

    fn collect_emails(&self, id: AccountId, primary: bool) -> (r: Vec<String>)
        ensures
            r@ == select(self.email_list(), email_query(id, primary), email_of()),
    {
        let mut r: Vec<String> = Vec::new();
        let mut i: usize = 0;
        while i < self.emails.len()
            invariant
                i <= self.emails.len(),
                r@ == select(self.email_list().take(i as int), email_query(id, primary), email_of()),
            decreases self.emails.len() - i,
        {
            proof {
                lemma_select_step(self.email_list(), email_query(id, primary), email_of(), i as int);
            }
            let e = &self.emails[i];
            if e.account_id == id && e.is_primary == primary {
                r.push(e.email.clone());
            }
            i = i + 1;
        }
        assert(self.email_list().take(self.emails.len() as int) =~= self.email_list());
        r
    }

    /// The first primary username of the account, in table order.
    pub fn get_primary_username(&self, account_id: AccountId) -> (r: Option<String>)
        ensures
            r == first(select(self.username_list(), username_query(account_id, true), username_of())),
    {
        let mut all = self.collect_usernames(account_id, true);
        if all.len() == 0 {
            None
        } else {
            Some(all.swap_remove(0))
        }
    }

    /// The non-expiring, non-primary usernames of the account.
    pub fn get_nonexpiring_username_aliases(&self, account_id: AccountId) -> (r: Vec<String>)
        ensures
            r@ == select(self.username_list(), username_query(account_id, false), username_of()),
    {
        self.collect_usernames(account_id, false)
    }

    /// The first primary e-mail of the account, in table order.
    pub fn get_primary_email(&self, account_id: AccountId) -> (r: Option<String>)
        ensures
            r == first(select(self.email_list(), email_query(account_id, true), email_of())),
    {
        let mut all = self.collect_emails(account_id, true);
        if all.len() == 0 {
            None
        } else {
            Some(all.swap_remove(0))
        }
    }

    /// The non-primary e-mails of the account.
    pub fn get_secondary_emails(&self, account_id: AccountId) -> (r: Vec<String>)
        ensures
            r@ == select(self.email_list(), email_query(account_id, false), email_of()),
    {
        self.collect_emails(account_id, false)
    }

    /// Whether the username has been taken.
    pub fn is_username_taken(&self, username: &str) -> (r: bool)
        requires
            self.wf(),
        ensures
            r == (self.username(username@) is Some),
    {
        let key = username.to_owned();
        self.find_username(&key).is_some()
    }

    /// Whether the e-mail has been taken.
    pub fn is_email_taken(&self, email: &str) -> (r: bool)
        requires
            self.wf(),
        ensures
            r == (self.email(email@) is Some),
    {
        let key = email.to_owned();
        self.find_email(&key).is_some()
    }

    /// Whether the e-mail has been taken by the given account.
    pub fn is_email_owned_by(&self, account_id: AccountId, email: &str) -> (r: bool)
        requires
            self.wf(),
        ensures
            r == (self.email(email@) matches Some(e) && e.account_id == account_id),
    {
        let key = email.to_owned();
        match self.find_email(&key) {
            Some(i) => self.emails[i].account_id == account_id,
            None => false,
        }
    }

    /// Whether a compare-and-set of the primary e-mail of `id` from
    /// `expected` to `new` applies: `expected` is the primary e-mail of `id`,
    /// `new` is another e-mail of `id`.
    pub open spec fn cas_applies(&self, id: AccountId, expected: Seq<char>, new: Seq<char>) -> bool {
        &&& self.email(expected) matches Some(c) && c.is_primary && c.account_id == id
        &&& self.email(new) matches Some(n) && n.account_id == id
        &&& new != expected
    }

    /// What `compare_and_set_primary_email` does.
    pub open spec fn cas_post(old: Self, new_state: Self, id: AccountId, expected: Seq<char>, new: Seq<char>, r: bool) -> bool {
        &&& new_state.wf()
        &&& r == old.cas_applies(id, expected, new)
        &&& if r {
            &&& forall|x: Seq<char>| #[trigger] new_state.email(x) == if x == expected {
                Some(with_primary(old.email(expected)->0, false))
            } else if x == new {
                Some(with_primary(old.email(new)->0, true))
            } else {
                old.email(x)
            }
            &&& new_state.accounts_seq() == old.accounts_seq()
            &&& new_state.usernames_seq() == old.usernames_seq()
            &&& new_state.flags_seq() == old.flags_seq()
            &&& new_state.username_list() == old.username_list()
        } else {
            new_state == old
        }
    }

    /// If `expected` is still the primary e-mail of the account, makes `new`,
    /// another e-mail of the account, primary instead. Returns whether it did.
    pub fn compare_and_set_primary_email(&mut self, account_id: AccountId, expected_primary_email: &str, new_primary_email: &str) -> (r: bool)
        requires
            old(self).wf(),
        ensures
            Self::cas_post(*old(self), *final(self), account_id, expected_primary_email@, new_primary_email@, r),
    {
        let exp = expected_primary_email.to_owned();
        let new = new_primary_email.to_owned();
        let ci = match self.find_email(&exp) {
            Some(i) => i,
            None => return false,
        };
        let ni = match self.find_email(&new) {
            Some(i) => i,
            None => return false,
        };
        if !(self.emails[ci].is_primary && self.emails[ci].account_id == account_id
            && self.emails[ni].account_id == account_id && !new.eq(&exp)) {
            return false;
        }
        let ghost s0 = self.emails_seq();
        let mut c = self.emails[ci].copy();
        c.is_primary = false;
        self.emails.set(ci, c);
        let ghost s1 = self.emails_seq();
        proof {
            assert(s1 =~= s0.update(ci as int, (s0[ci as int].0, with_primary(s0[ci as int].1, false))));
            lemma_lookup_update(s0, ci as int, with_primary(s0[ci as int].1, false), new@);
            assert(s1[ni as int] == s0[ni as int]);
        }
        let mut n = self.emails[ni].copy();
        n.is_primary = true;
        self.emails.set(ni, n);
        proof {
            assert(self.emails_seq() =~= s1.update(ni as int, (s1[ni as int].0, with_primary(s1[ni as int].1, true))));
            lemma_lookup_update(s1, ni as int, with_primary(s1[ni as int].1, true), exp@);
            assert forall|x: Seq<char>| #[trigger] self.email(x) == if x == exp@ {
                Some(with_primary(old(self).email(exp@)->0, false))
            } else if x == new@ {
                Some(with_primary(old(self).email(new@)->0, true))
            } else {
                old(self).email(x)
            } by {
                lemma_lookup_update(s0, ci as int, with_primary(s0[ci as int].1, false), x);
                lemma_lookup_update(s1, ni as int, with_primary(s1[ni as int].1, true), x);
            }
        }
        true
    }

    /// What `delete_email_if_not_primary` does.
    pub open spec fn delete_email_post(old: Self, new: Self, id: AccountId, e: Seq<char>, r: bool) -> bool {
        &&& new.wf()
        &&& r == (old.email(e) matches Some(x) && x.account_id == id && !x.is_primary)
        &&& if r {
            &&& forall|y: Seq<char>| #[trigger] new.email(y) == if y == e {
                None
            } else {
                old.email(y)
            }
            &&& new.accounts_seq() == old.accounts_seq()
            &&& new.usernames_seq() == old.usernames_seq()
            &&& new.flags_seq() == old.flags_seq()
            &&& new.username_list() == old.username_list()
        } else {
            new == old
        }
    }

    /// Deletes the e-mail if the account owns it and it is not primary.
    /// Returns whether it did.
    pub fn delete_email_if_not_primary(&mut self, account_id: AccountId, email: &str) -> (r: bool)
        requires
            old(self).wf(),
        ensures
            Self::delete_email_post(*old(self), *final(self), account_id, email@, r),
    {
        let key = email.to_owned();
        let i = match self.find_email(&key) {
            Some(i) => i,
            None => return false,
        };
        if !(self.emails[i].account_id == account_id && !self.emails[i].is_primary) {
            return false;
        }
        let ghost s0 = self.emails_seq();
        self.emails.remove(i);
        proof {
            assert(self.emails_seq() =~= s0.remove(i as int));
            crate::keyed::lemma_lookup_remove(s0, i as int, key@);
            assert forall|y: Seq<char>| #[trigger] self.email(y) == if y == key@ {
                None
            } else {
                old(self).email(y)
            } by {
                crate::keyed::lemma_lookup_remove(s0, i as int, y);
            }
        }
        true
    }

    /// An exact copy of the repository.
    fn copy(&self) -> (r: Self)
        ensures
            r.same_contents(self),
            self.wf() ==> r.wf(),
    {
        let mut accounts: Vec<Account> = Vec::new();
        let mut i: usize = 0;
        while i < self.accounts.len()
            invariant
                i <= self.accounts.len(),
                accounts@.len() == i,
                forall|j: int| 0 <= j < i ==> #[trigger] accounts@[j]@ == self.accounts@[j]@,
            decreases self.accounts.len() - i,
        {
            accounts.push(self.accounts[i].copy());
            i = i + 1;
        }
        let mut emails: Vec<Email> = Vec::new();
        let mut i: usize = 0;
        while i < self.emails.len()
            invariant
                i <= self.emails.len(),
                emails@ == self.emails@.take(i as int),
            decreases self.emails.len() - i,
        {
            emails.push(self.emails[i].copy());
            assert(self.emails@.take(i + 1) =~= self.emails@.take(i as int).push(self.emails@[i as int]));
            i = i + 1;
        }
        let mut usernames: Vec<Username> = Vec::new();
        let mut i: usize = 0;
        while i < self.usernames.len()
            invariant
                i <= self.usernames.len(),
                usernames@ == self.usernames@.take(i as int),
            decreases self.usernames.len() - i,
        {
            usernames.push(self.usernames[i].copy());
            assert(self.usernames@.take(i + 1) =~= self.usernames@.take(i as int).push(self.usernames@[i as int]));
            i = i + 1;
        }
        let mut account_flags: Vec<AccountFlags> = Vec::new();
        let mut i: usize = 0;
        while i < self.account_flags.len()
            invariant
                i <= self.account_flags.len(),
                account_flags@ == self.account_flags@.take(i as int),
            decreases self.account_flags.len() - i,
        {
            account_flags.push(self.account_flags[i]);
            assert(self.account_flags@.take(i + 1) =~= self.account_flags@.take(i as int).push(self.account_flags@[i as int]));
            i = i + 1;
        }
        assert(self.emails@.take(self.emails.len() as int) =~= self.emails@);
        assert(self.usernames@.take(self.usernames.len() as int) =~= self.usernames@);
        assert(self.account_flags@.take(self.account_flags.len() as int) =~= self.account_flags@);
        let r = MockAccountRepoImpl { accounts, emails, usernames, account_flags };
        assert(r.accounts_seq() =~= self.accounts_seq());
        assert(r.emails_seq() =~= self.emails_seq());
        assert(r.usernames_seq() =~= self.usernames_seq());
        assert(r.flags_seq() =~= self.flags_seq());
        r
    }

    /// Begins a new transactional unit, working on a copy of the repository.
    pub fn begin_transaction(&self) -> (r: MockAccountRepoTransactionImpl)
        requires
            self.wf(),
        ensures
            r.state().wf(),
            r.state().same_contents(self),
    {
        MockAccountRepoTransactionImpl { state: self.copy() }
    }

    fn put_account(&mut self, account: &Account)
        requires
            old(self).wf(),
        ensures
            final(self).wf(),
            forall|x: AccountId| #[trigger] final(self).account(x) == if x == account.account_id {
                Some(account@)
            } else {
                old(self).account(x)
            },
            final(self).emails == old(self).emails,
            final(self).usernames == old(self).usernames,
            final(self).account_flags == old(self).account_flags,
    {
        let ghost s0 = self.accounts_seq();
        match self.find_account(account.account_id) {
            Some(i) => {
                self.accounts.set(i, account.copy());
                proof {
                    assert(self.accounts_seq() =~= s0.update(i as int, (s0[i as int].0, account@)));
                    assert forall|x: AccountId| #[trigger] self.account(x) == if x == account.account_id {
                        Some(account@)
                    } else {
                        old(self).account(x)
                    } by {
                        lemma_lookup_update(s0, i as int, account@, x);
                    }
                    lemma_lookup_update(s0, i as int, account@, account.account_id);
                }
            },
            None => {
                self.accounts.push(account.copy());
                proof {
                    assert(self.accounts_seq() =~= s0.push((account.account_id, account@)));
                    lemma_unique_push(s0, account.account_id, account@);
                    assert forall|x: AccountId| #[trigger] self.account(x) == if x == account.account_id {
                        Some(account@)
                    } else {
                        old(self).account(x)
                    } by {
                        lemma_lookup_push(s0, account.account_id, account@, x);
                    }
                }
            },
        }
    }

    fn put_flags(&mut self, flags: AccountFlags)
        requires
            old(self).wf(),
        ensures
            final(self).wf(),
            forall|x: AccountId| #[trigger] final(self).flags(x) == if x == flags.account_id {
                Some(flags)
            } else {
                old(self).flags(x)
            },
            final(self).emails == old(self).emails,
            final(self).usernames == old(self).usernames,
            final(self).accounts == old(self).accounts,
    {
        let ghost s0 = self.flags_seq();
        match self.find_flags(flags.account_id) {
            Some(i) => {
                self.account_flags.set(i, flags);
                proof {
                    assert(self.flags_seq() =~= s0.update(i as int, (s0[i as int].0, flags)));
                    assert forall|x: AccountId| #[trigger] self.flags(x) == if x == flags.account_id {
                        Some(flags)
                    } else {
                        old(self).flags(x)
                    } by {
                        lemma_lookup_update(s0, i as int, flags, x);
                    }
                    lemma_lookup_update(s0, i as int, flags, flags.account_id);
                }
            },
            None => {
                self.account_flags.push(flags);
                proof {
                    assert(self.flags_seq() =~= s0.push((flags.account_id, flags)));
                    lemma_unique_push(s0, flags.account_id, flags);
                    assert forall|x: AccountId| #[trigger] self.flags(x) == if x == flags.account_id {
                        Some(flags)
                    } else {
                        old(self).flags(x)
                    } by {
                        lemma_lookup_push(s0, flags.account_id, flags, x);
                    }
                }
            },
        }
    }

    fn add_email(&mut self, account_id: AccountId, email: &str, is_primary: bool, created_at: i64) -> (r: RepoResult<()>)
        requires
            old(self).wf(),
        ensures
            final(self).wf(),
            r is Err <==> old(self).email(email@) is Some,
            r is Err ==> *final(self) == *old(self),
            r matches Err(e) ==> e == RepoError::Internal("email is taken"),
            r is Ok ==> (final(self).email(email@) matches Some(n) && n.email@ == email@ && n.account_id == account_id
                && n.is_primary == is_primary && n.created_at == created_at),
            r is Ok ==> forall|x: Seq<char>| x != email@ ==> #[trigger] final(self).email(x) == old(self).email(x),
            r is Ok ==> final(self).email_list() == old(self).email_list().push(final(self).email(email@)->0),
            final(self).accounts == old(self).accounts,
            final(self).usernames == old(self).usernames,
            final(self).account_flags == old(self).account_flags,
    {
        let key = email.to_owned();
        if self.find_email(&key).is_some() {
            return Err(RepoError::Internal("email is taken"));
        }
        let ghost s0 = self.emails_seq();
        let entity = Email { email: key, account_id, is_primary, created_at };
        let ghost ev = entity;
        self.emails.push(entity);
        proof {
            assert(self.emails_seq() =~= s0.push((ev.email@, ev)));
            lemma_unique_push(s0, ev.email@, ev);
            assert forall|x: Seq<char>| x != email@ implies #[trigger] self.email(x) == old(self).email(x) by {
                lemma_lookup_push(s0, ev.email@, ev, x);
            }
            lemma_lookup_push(s0, ev.email@, ev, email@);
        }
        Ok(())
    }

    fn add_username(&mut self, account_id: AccountId, username: &str, is_primary: bool, created_at: i64) -> (r: RepoResult<()>)
        requires
            old(self).wf(),
        ensures
            final(self).wf(),
            r is Err <==> old(self).username(username@) is Some,
            r is Err ==> *final(self) == *old(self),
            r matches Err(e) ==> e == RepoError::Internal("username is taken"),
            r is Ok ==> (final(self).username(username@) matches Some(n) && n.username@ == username@
                && n.account_id == account_id && n.is_primary == is_primary && n.created_at == created_at
                && n.expires_at is None),
            r is Ok ==> forall|x: Seq<char>| x != username@ ==> #[trigger] final(self).username(x) == old(self).username(x),
            r is Ok ==> final(self).username_list() == old(self).username_list().push(final(self).username(username@)->0),
            final(self).accounts == old(self).accounts,
            final(self).emails == old(self).emails,
            final(self).account_flags == old(self).account_flags,
    {
        let key = username.to_owned();
        if self.find_username(&key).is_some() {
            return Err(RepoError::Internal("username is taken"));
        }
        let ghost s0 = self.usernames_seq();
        let entity = Username { username: key, account_id, is_primary, created_at, expires_at: None };
        let ghost ev = entity;
        self.usernames.push(entity);
        proof {
            assert(self.usernames_seq() =~= s0.push((ev.username@, ev)));
            lemma_unique_push(s0, ev.username@, ev);
            assert forall|x: Seq<char>| x != username@ implies #[trigger] self.username(x) == old(self).username(x) by {
                lemma_lookup_push(s0, ev.username@, ev, x);
            }
            lemma_lookup_push(s0, ev.username@, ev, username@);
        }
        Ok(())
    }

    fn update_password(
        &mut self,
        account_id: AccountId,
        password_hash: &str,
        client_password_kdf: &ClientPasswordKdf,
        server_password_hash_algorithm: ServerPasswordHashAlgorithm,
    ) -> (r: RepoResult<()>)
        requires
            old(self).wf(),
        ensures
            final(self).wf(),
            r is Err <==> old(self).account(account_id) is None,
            r is Err ==> *final(self) == *old(self),
            r matches Err(e) ==> e == RepoError::Internal("account does not exists"),
            r is Ok ==> (final(self).account(account_id) matches Some(a) && (a.password_hash matches Some(h)
                && h@ == password_hash@ && a == with_password(old(self).account(account_id)->0, h, *client_password_kdf, server_password_hash_algorithm))),
            r is Ok ==> forall|x: AccountId| x != account_id ==> #[trigger] final(self).account(x) == old(self).account(x),
            final(self).emails == old(self).emails,
            final(self).usernames == old(self).usernames,
            final(self).account_flags == old(self).account_flags,
    {
        let i = match self.find_account(account_id) {
            Some(i) => i,
            None => return Err(RepoError::Internal("account does not exists")),
        };
        let mut a = self.accounts[i].copy();
        let h = password_hash.to_owned();
        let ghost hv = h;
        a.password_hash = Some(h);
        a.client_password_kdf = client_password_kdf.copy();
        a.server_password_hash_algorithm = server_password_hash_algorithm;
        let ghost av = a@;
        self.put_account(&a);
        assert(av == with_password(old(self).account(account_id)->0, hv, *client_password_kdf, server_password_hash_algorithm));
        Ok(())
    }

    /// The number of e-mails of the account.
    pub open spec fn email_count(&self, id: AccountId) -> nat {
        select(self.email_list(), |e: Email| e.account_id == id, |e: Email| e).len()
    }

    fn count_account_emails(&self, account_id: AccountId) -> (r: usize)
        ensures
            r == self.email_count(account_id),
    {
        let mut n: usize = 0;
        let mut i: usize = 0;
        while i < self.emails.len()
            invariant
                i <= self.emails.len(),
                n == select(self.email_list().take(i as int), |e: Email| e.account_id == account_id, |e: Email| e).len(),
                n <= i,
            decreases self.emails.len() - i,
        {
            proof {
                lemma_select_step(self.email_list(), |e: Email| e.account_id == account_id, |e: Email| e, i as int);
            }
            if self.emails[i].account_id == account_id {
                n = n + 1;
            }
            i = i + 1;
        }
        assert(self.email_list().take(self.emails.len() as int) =~= self.email_list());
        n
    }
}

impl MockAccountRepoImpl {
    /// I-AR-3: an account has at most one primary e-mail.
    pub open spec fn primary_emails_unique(&self) -> bool {
        forall|x: Seq<char>, y: Seq<char>|
            #![trigger self.email(x), self.email(y)]
            primary_pair(self.email(x), self.email(y)) ==> x == y
    }

    /// The e-mail `x` is the primary e-mail of `id`.
    pub open spec fn is_primary_email_of(&self, x: Seq<char>, id: AccountId) -> bool {
        self.email(x) matches Some(a) && a.is_primary && a.account_id == id
    }

    proof fn lemma_email_entry(&self, i: int)
        requires
            self.wf(),
            0 <= i < self.email_list().len(),
        ensures
            self.email(self.email_list()[i].email@) == Some(self.email_list()[i]),
    {
        assert(self.emails_seq()[i] == (self.email_list()[i].email@, self.email_list()[i]));
        lemma_lookup_index(self.emails_seq(), i);
    }

    /// The primary e-mail read of an account gives an e-mail that is primary
    /// for it; it gives none only when the account has none.
    pub proof fn law_primary_email_read(&self, id: AccountId)
        requires
            self.wf(),
        ensures
            match first(select(self.email_list(), email_query(id, true), email_of())) {
                Some(p) => self.is_primary_email_of(p@, id),
                None => forall|x: Seq<char>| !self.is_primary_email_of(x, id),
            },
    {
        let sel = select(self.email_list(), email_query(id, true), email_of());
        if sel.len() > 0 {
            lemma_select_sound(self.email_list(), email_query(id, true), email_of(), 0);
            let i = choose|i: int|
                0 <= i < self.email_list().len() && email_query(id, true)(self.email_list()[i])
                    && sel[0] == email_of()(self.email_list()[i]);
            self.lemma_email_entry(i);
        } else {
            assert forall|x: Seq<char>| !self.is_primary_email_of(x, id) by {
                if self.is_primary_email_of(x, id) {
                    let j = lemma_lookup_found(self.emails_seq(), x);
                    assert(self.emails_seq()[j].1 == self.email_list()[j]);
                    lemma_select_complete(self.email_list(), email_query(id, true), email_of(), j);
                }
            }
        }
    }

    /// A compare-and-set of the primary e-mail keeps I-AR-3.
    pub proof fn law_cas_keeps_primary_unique(
        old: Self,
        new_state: Self,
        id: AccountId,
        expected: Seq<char>,
        new: Seq<char>,
        r: bool,
    )
        requires
            old.primary_emails_unique(),
            Self::cas_post(old, new_state, id, expected, new, r),
        ensures
            new_state.primary_emails_unique(),
    {
        if r {
            assert forall|x: Seq<char>, y: Seq<char>|
                primary_pair(new_state.email(x), new_state.email(y)) implies x == y by {
                assert(old.email(expected) matches Some(c) && c.is_primary && c.account_id == id);
                if x != new && y != new {
                    assert(old.email(x) == new_state.email(x));
                    assert(old.email(y) == new_state.email(y));
                } else if x == new && y != new {
                    assert(old.email(y) == new_state.email(y));
                    assert(old.email(y)->0.account_id == id);
                    assert(y == expected);
                } else if y == new && x != new {
                    assert(old.email(x) == new_state.email(x));
                    assert(x == expected);
                }
            }
        }
    }

    /// After a successful compare-and-set, and under I-AR-3, the new e-mail
    /// is the one primary e-mail of the account, and the primary e-mail read
    /// gives it.
    pub proof fn law_cas_then_primary_is_new(
        old: Self,
        new_state: Self,
        id: AccountId,
        expected: Seq<char>,
        new: Seq<char>,
        r: bool,
    )
        requires
            old.wf(),
            old.primary_emails_unique(),
            Self::cas_post(old, new_state, id, expected, new, r),
            r,
        ensures
            forall|x: Seq<char>| new_state.is_primary_email_of(x, id) <==> x == new,
            first(select(new_state.email_list(), email_query(id, true), email_of())) matches Some(p) && p@ == new,
    {
        Self::law_cas_keeps_primary_unique(old, new_state, id, expected, new, r);
        assert(new_state.is_primary_email_of(new, id));
        assert forall|x: Seq<char>| new_state.is_primary_email_of(x, id) implies x == new by {
            assert(new_state.email(new) matches Some(b) && b.is_primary);
        }
        new_state.law_primary_email_read(id);
    }

    /// What a successful `insert_username` leaves: the username stored for
    /// the account, created at `created_at` and never expiring; the other
    /// usernames unchanged.
    pub open spec fn username_inserted(
        old: Self,
        new: Self,
        account_id: AccountId,
        u: Seq<char>,
        is_primary: bool,
        created_at: i64,
    ) -> bool {
        &&& new.username(u) matches Some(n) && n.username@ == u && n.account_id == account_id
            && n.is_primary == is_primary && n.created_at == created_at && n.expires_at is None
        &&& forall|x: Seq<char>| x != u ==> #[trigger] new.username(x) == old.username(x)
    }

    /// I-AR-4: no username is both primary and expiring.
    pub open spec fn primary_usernames_never_expire(&self) -> bool {
        forall|u: Seq<char>| #[trigger] self.username(u) matches Some(n) ==> !(n.is_primary && n.expires_at is Some)
    }

    /// Inserting a username keeps I-AR-4.
    pub proof fn law_insert_username_keeps_primary_nonexpiring(
        old: Self,
        new: Self,
        account_id: AccountId,
        u: Seq<char>,
        is_primary: bool,
        created_at: i64,
    )
        requires
            old.primary_usernames_never_expire(),
            Self::username_inserted(old, new, account_id, u, is_primary, created_at),
        ensures
            new.primary_usernames_never_expire(),
    {
        assert forall|x: Seq<char>| #[trigger] new.username(x) is Some implies !(new.username(x)->0.is_primary
            && new.username(x)->0.expires_at is Some) by {
            if x != u {
                assert(new.username(x) == old.username(x));
            }
        }
    }

    /// The addresses of e-mails that no two entries share are selected
    /// without repeats.
    proof fn lemma_selected_emails_distinct(s: Seq<Email>, keep: spec_fn(Email) -> bool)
        requires
            forall|i: int, j: int| 0 <= i < j < s.len() ==> s[i].email@ != s[j].email@,
        ensures
            forall|k1: int, k2: int|
                0 <= k1 < k2 < select(s, keep, email_of()).len() ==> select(s, keep, email_of())[k1]@
                    != select(s, keep, email_of())[k2]@,
        decreases s.len(),
    {
        if s.len() > 0 {
            let t = s.drop_last();
            Self::lemma_selected_emails_distinct(t, keep);
            let st = select(t, keep, email_of());
            let ss = select(s, keep, email_of());
            assert forall|k1: int, k2: int| 0 <= k1 < k2 < ss.len() implies ss[k1]@ != ss[k2]@ by {
                if k2 >= st.len() {
                    lemma_select_sound(t, keep, email_of(), k1);
                    let i = choose|i: int| 0 <= i < t.len() && keep(t[i]) && st[k1] == email_of()(t[i]);
                    assert(s[i] == t[i]);
                    assert(ss[k2] == s[s.len() - 1].email);
                } else {
                    assert(ss[k1] == st[k1] && ss[k2] == st[k2]);
                }
            }
        }
    }

    /// The secondary e-mails of an account are exactly the account's
    /// non-primary addresses, each once.
    pub proof fn law_secondary_emails_exact(&self, id: AccountId)
        requires
            self.wf(),
        ensures
            ({
                let sel = select(self.email_list(), email_query(id, false), email_of());
                &&& forall|k1: int, k2: int| 0 <= k1 < k2 < sel.len() ==> sel[k1]@ != sel[k2]@
                &&& forall|x: Seq<char>| #![trigger self.email(x)] (exists|k: int| 0 <= k < sel.len() && #[trigger] sel[k]@ == x) <==> (self.email(
                    x,
                ) matches Some(e) && e.account_id == id && !e.is_primary)
            }),
    {
        let list = self.email_list();
        let sel = select(list, email_query(id, false), email_of());
        assert forall|i: int, j: int| 0 <= i < j < list.len() implies list[i].email@ != list[j].email@ by {
            assert(self.emails_seq()[i].0 == list[i].email@ && self.emails_seq()[j].0 == list[j].email@);
        }
        Self::lemma_selected_emails_distinct(list, email_query(id, false));
        assert forall|x: Seq<char>| #![trigger self.email(x)] (exists|k: int| 0 <= k < sel.len() && #[trigger] sel[k]@ == x) <==> (self.email(
            x,
        ) matches Some(e) && e.account_id == id && !e.is_primary) by {
            if exists|k: int| 0 <= k < sel.len() && #[trigger] sel[k]@ == x {
                let k = choose|k: int| 0 <= k < sel.len() && #[trigger] sel[k]@ == x;
                lemma_select_sound(list, email_query(id, false), email_of(), k);
                let i = choose|i: int| 0 <= i < list.len() && email_query(id, false)(list[i]) && sel[k] == email_of()(list[i]);
                self.lemma_email_entry(i);
            }
            if self.email(x) matches Some(e) && e.account_id == id && !e.is_primary {
                let j = lemma_lookup_found(self.emails_seq(), x);
                assert(self.emails_seq()[j].1 == list[j]);
                lemma_select_complete(list, email_query(id, false), email_of(), j);
                let k = choose|k: int| 0 <= k < sel.len() && sel[k] == email_of()(list[j]);
                assert(sel[k]@ == x);
            }
        }
    }

    /// Deleting a non-primary e-mail never touches a primary e-mail.
    pub proof fn law_delete_keeps_primary_emails(old: Self, new: Self, id: AccountId, e: Seq<char>, r: bool, x: Seq<char>)
        requires
            Self::delete_email_post(old, new, id, e, r),
            old.email(x) matches Some(a) && a.is_primary,
        ensures
            new.email(x) == old.email(x),
    {
    }
}

impl MockAccountRepoTransactionImpl {
    /// Commits the changes: the repository takes the state of the
    /// transaction.
    pub fn commit(self, repo: &mut MockAccountRepoImpl) -> (r: RepoResult<()>)
        ensures
            r is Ok,
            *final(repo) == self.state(),
    {
        *repo = self.state;
        Ok(())
    }

    /// Locks the account for the rest of the transaction. The mock
    /// implementation already locks the entire repository.
    pub fn lock(&mut self, _account_id: AccountId) -> (r: RepoResult<()>)
        ensures
            r is Ok,
            final(self).state() == old(self).state(),
    {
        Ok(())
    }

    /// Inserts the account, replacing one with the same id.
    pub fn insert(&mut self, account_entity: &Account) -> (r: RepoResult<()>)
        requires
            old(self).state().wf(),
        ensures
            r is Ok,
            final(self).state().wf(),
            forall|x: AccountId| #[trigger] final(self).state().account(x) == if x == account_entity.account_id {
                Some(account_entity@)
            } else {
                old(self).state().account(x)
            },
            final(self).state().emails_seq() == old(self).state().emails_seq(),
            final(self).state().usernames_seq() == old(self).state().usernames_seq(),
            final(self).state().flags_seq() == old(self).state().flags_seq(),
            final(self).state().email_list() == old(self).state().email_list(),
            final(self).state().username_list() == old(self).state().username_list(),
    {
        self.state.put_account(account_entity);
        Ok(())
    }

    /// Sets the default flags of the account: e-mail not verified.
    pub fn insert_default_flags(&mut self, account_id: AccountId) -> (r: RepoResult<()>)
        requires
            old(self).state().wf(),
        ensures
            r is Ok,
            final(self).state().wf(),
            forall|x: AccountId| #[trigger] final(self).state().flags(x) == if x == account_id {
                Some(AccountFlags { account_id, is_email_verified: false })
            } else {
                old(self).state().flags(x)
            },
            final(self).state().accounts_seq() == old(self).state().accounts_seq(),
            final(self).state().emails_seq() == old(self).state().emails_seq(),
            final(self).state().usernames_seq() == old(self).state().usernames_seq(),
            final(self).state().email_list() == old(self).state().email_list(),
            final(self).state().username_list() == old(self).state().username_list(),
    {
        self.state.put_flags(AccountFlags { account_id, is_email_verified: false });
        Ok(())
    }

    /// Adds the e-mail, added at `created_at`, to the account; fails if the
    /// e-mail is taken.
    pub fn insert_email_at(&mut self, account_id: AccountId, email: &str, is_primary: bool, created_at: i64) -> (r: RepoResult<()>)
        requires
            old(self).state().wf(),
        ensures
            final(self).state().wf(),
            r is Err <==> old(self).state().email(email@) is Some,
            r is Err ==> final(self).state() == old(self).state(),
            r matches Err(e) ==> e == RepoError::Internal("email is taken"),
            r is Ok ==> (final(self).state().email(email@) matches Some(n) && n.email@ == email@
                && n.account_id == account_id && n.is_primary == is_primary && n.created_at == created_at),
            r is Ok ==> forall|x: Seq<char>| x != email@ ==> #[trigger] final(self).state().email(x) == old(self).state().email(x),
            final(self).state().accounts_seq() == old(self).state().accounts_seq(),
            final(self).state().usernames_seq() == old(self).state().usernames_seq(),
            final(self).state().flags_seq() == old(self).state().flags_seq(),
            final(self).state().username_list() == old(self).state().username_list(),
    {
        self.state.add_email(account_id, email, is_primary, created_at)
    }

    /// Adds the e-mail to the account, added now; fails if the e-mail is
    /// taken.
    pub fn insert_email(&mut self, account_id: AccountId, email: &str, is_primary: bool) -> (r: RepoResult<()>)
        requires
            old(self).state().wf(),
        ensures
            final(self).state().wf(),
            r is Err <==> old(self).state().email(email@) is Some,
            r is Err ==> final(self).state() == old(self).state(),
            r matches Err(e) ==> e == RepoError::Internal("email is taken"),
            r is Ok ==> (final(self).state().email(email@) matches Some(n) && n.email@ == email@
                && n.account_id == account_id && n.is_primary == is_primary),
            r is Ok ==> forall|x: Seq<char>| x != email@ ==> #[trigger] final(self).state().email(x) == old(self).state().email(x),
            final(self).state().accounts_seq() == old(self).state().accounts_seq(),
            final(self).state().usernames_seq() == old(self).state().usernames_seq(),
            final(self).state().flags_seq() == old(self).state().flags_seq(),
            final(self).state().username_list() == old(self).state().username_list(),
    {
        let now = now_micros();
        self.insert_email_at(account_id, email, is_primary, now)
    }

    /// Adds the username, taken at `created_at`, to the account; fails if the
    /// username is taken.
    pub fn insert_username_at(&mut self, account_id: AccountId, username: &str, is_primary: bool, created_at: i64) -> (r: RepoResult<()>)
        requires
            old(self).state().wf(),
        ensures
            final(self).state().wf(),
            r is Err <==> old(self).state().username(username@) is Some,
            r is Err ==> final(self).state() == old(self).state(),
            r matches Err(e) ==> e == RepoError::Internal("username is taken"),
            r is Ok ==> MockAccountRepoImpl::username_inserted(old(self).state(), final(self).state(), account_id, username@, is_primary, created_at),
            final(self).state().accounts_seq() == old(self).state().accounts_seq(),
            final(self).state().emails_seq() == old(self).state().emails_seq(),
            final(self).state().flags_seq() == old(self).state().flags_seq(),
            final(self).state().email_list() == old(self).state().email_list(),
    {
        self.state.add_username(account_id, username, is_primary, created_at)
    }

    /// Adds the username to the account, taken now; fails if the username is
    /// taken.
    pub fn insert_username(&mut self, account_id: AccountId, username: &str, is_primary: bool) -> (r: RepoResult<()>)
        requires
            old(self).state().wf(),
        ensures
            final(self).state().wf(),
            r is Err <==> old(self).state().username(username@) is Some,
            r is Err ==> final(self).state() == old(self).state(),
            r matches Err(e) ==> e == RepoError::Internal("username is taken"),
            r is Ok ==> exists|now: i64| MockAccountRepoImpl::username_inserted(old(self).state(), final(self).state(), account_id, username@, is_primary, now),
            final(self).state().accounts_seq() == old(self).state().accounts_seq(),
            final(self).state().emails_seq() == old(self).state().emails_seq(),
            final(self).state().flags_seq() == old(self).state().flags_seq(),
            final(self).state().email_list() == old(self).state().email_list(),
    {
        let now = now_micros();
        self.insert_username_at(account_id, username, is_primary, now)
    }

    /// Sets the e-mail verified flag of the account; fails if the account
    /// has no flags.
    pub fn set_email_verified_flag(&mut self, account_id: AccountId, is_email_verified: bool) -> (r: RepoResult<()>)
        requires
            old(self).state().wf(),
        ensures
            final(self).state().wf(),
            r is Err <==> old(self).state().flags(account_id) is None,
            r is Err ==> final(self).state() == old(self).state(),
            r matches Err(e) ==> e == RepoError::Internal("account does not exists"),
            r is Ok ==> forall|x: AccountId| #[trigger] final(self).state().flags(x) == if x == account_id {
                Some(AccountFlags { account_id, is_email_verified })
            } else {
                old(self).state().flags(x)
            },
            final(self).state().accounts_seq() == old(self).state().accounts_seq(),
            final(self).state().emails_seq() == old(self).state().emails_seq(),
            final(self).state().usernames_seq() == old(self).state().usernames_seq(),
            final(self).state().email_list() == old(self).state().email_list(),
            final(self).state().username_list() == old(self).state().username_list(),
    {
        if self.state.find_flags(account_id).is_none() {
            return Err(RepoError::Internal("account does not exists"));
        }
        self.state.put_flags(AccountFlags { account_id, is_email_verified });
        Ok(())
    }

    /// Replaces the password credentials of the account; fails if there is
    /// no such account.
    pub fn set_password_credentials(
        &mut self,
        account_id: AccountId,
        password_hash: &str,
        client_password_kdf: &ClientPasswordKdf,
        server_password_hash_algorithm: &ServerPasswordHashAlgorithm,
    ) -> (r: RepoResult<()>)
        requires
            old(self).state().wf(),
        ensures
            final(self).state().wf(),
            r is Err <==> old(self).state().account(account_id) is None,
            r is Err ==> final(self).state() == old(self).state(),
            r matches Err(e) ==> e == RepoError::Internal("account does not exists"),
            r is Ok ==> (final(self).state().account(account_id) matches Some(a) && (a.password_hash matches Some(h)
                && h@ == password_hash@ && a == with_password(
                    old(self).state().account(account_id)->0,
                    h,
                    *client_password_kdf,
                    *server_password_hash_algorithm,
                ))),
            r is Ok ==> forall|x: AccountId| x != account_id ==> #[trigger] final(self).state().account(x) == old(self).state().account(x),
            final(self).state().emails_seq() == old(self).state().emails_seq(),
            final(self).state().usernames_seq() == old(self).state().usernames_seq(),
            final(self).state().flags_seq() == old(self).state().flags_seq(),
            final(self).state().email_list() == old(self).state().email_list(),
            final(self).state().username_list() == old(self).state().username_list(),
    {
        self.state.update_password(account_id, password_hash, client_password_kdf, *server_password_hash_algorithm)
    }

    /// The number of e-mails of the account.
    pub fn count_emails(&mut self, account_id: AccountId) -> (r: RepoResult<usize>)
        ensures
            final(self).state() == old(self).state(),
            r == Ok::<usize, RepoError>(old(self).state().email_count(account_id) as usize),
    {
        Ok(self.state.count_account_emails(account_id))
    }
}

} // verus!
