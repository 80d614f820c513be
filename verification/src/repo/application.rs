//! Application repository: applications, their redirect URLs, and the
//! consents that accounts gave them.

use vstd::prelude::*;
use crate::clock::now_micros;
use crate::dto::repo::{OwnedApplicationAccountConsent, OwnedApplicationSummary};
use crate::entity::{AccountApplicationConsent, Application, KeyEncryptionAlgorithm};
use crate::ids::{AccountId, ApplicationId, MasterKeyId};
use crate::keyed::{
    filter_keys, has_key, keys_unique, lemma_lookup_filter, lemma_lookup_index, lemma_lookup_none,
    lemma_lookup_push, lemma_lookup_remove, lemma_lookup_update,
    lemma_select_step, lemma_unique_push, lookup, select,
};
use crate::repo::error::{RepoError, RepoResult};

verus! {

/// A consent, with its bytes taken as a sequence.
pub ghost struct ConsentView {
    pub account_id: AccountId,
    pub application_id: ApplicationId,
    pub created_at: i64,
    pub key_encryption_algorithm: KeyEncryptionAlgorithm,
    pub master_key_encrypted_key: Option<Seq<u8>>,
    pub master_key_id: Option<MasterKeyId>,
}

impl View for AccountApplicationConsent {
    type V = ConsentView;

    open spec fn view(&self) -> ConsentView {
        ConsentView {
            account_id: self.account_id,
            application_id: self.application_id,
            created_at: self.created_at,
            key_encryption_algorithm: self.key_encryption_algorithm,
            master_key_encrypted_key: crate::entity::opt_bytes_view(self.master_key_encrypted_key),
            master_key_id: self.master_key_id,
        }
    }
}

/// The consent that `insert_consent` records.
pub open spec fn fresh_consent(account_id: AccountId, application_id: ApplicationId, created_at: i64) -> ConsentView {
    ConsentView {
        account_id,
        application_id,
        created_at,
        key_encryption_algorithm: KeyEncryptionAlgorithm::Unencrypted,
        master_key_encrypted_key: None,
        master_key_id: None,
    }
}

/// The stored state of the application repository.
pub struct ApplicationRepoState {
    applications: Vec<Application>,
    application_redirect_urls: Vec<(ApplicationId, Vec<String>)>,
    account_application_consents: Vec<AccountApplicationConsent>,
}

fn copy_strings(v: &Vec<String>) -> (r: Vec<String>)
    ensures
        r@ == v@,
{
    let mut r: Vec<String> = Vec::new();
    let mut i: usize = 0;
    while i < v.len()
        invariant
            i <= v.len(),
            r@ == v@.take(i as int),
        decreases v.len() - i,
    {
        r.push(v[i].clone());
        assert(v@.take(i + 1) =~= v@.take(i as int).push(v@[i as int]));
        i = i + 1;
    }
    assert(v@.take(v.len() as int) =~= v@);
    r
}

fn copy_consent(c: &AccountApplicationConsent) -> (r: AccountApplicationConsent)
    ensures
        r@ == c@,
{
    AccountApplicationConsent {
        account_id: c.account_id,
        application_id: c.application_id,
        created_at: c.created_at,
        key_encryption_algorithm: c.key_encryption_algorithm,
        master_key_encrypted_key: crate::entity::copy_opt_bytes(&c.master_key_encrypted_key),
        master_key_id: c.master_key_id,
    }
}

/// The contents of a list of strings.
pub open spec fn strs(v: Seq<String>) -> Seq<Seq<char>> {
    v.map_values(|s: String| s@)
}

/// The applications that `list_by_owner` lists.
pub open spec fn owned_by(account_id: AccountId) -> spec_fn(Application) -> bool {
    |a: Application| a.owner_account_id == account_id
}

/// Summary of an application.
pub open spec fn summary_of() -> spec_fn(Application) -> OwnedApplicationSummary {
    |a: Application| OwnedApplicationSummary { application_id: a.application_id, name: a.name }
}

/// `c` is a consent of the account to an application after `after`.
pub open spec fn consent_listed(c: ConsentView, account_id: AccountId, after: Option<ApplicationId>) -> bool {
    &&& c.account_id == account_id
    &&& match after {
        Some(a) => c.application_id.0 > a.0,
        None => true,
    }
}

/// `c` comes after the last listed application id, if any.
pub open spec fn above(last: Option<u64>, c: ConsentView) -> bool {
    match last {
        Some(l) => c.application_id.0 > l,
        None => true,
    }
}

/// The maximum number of consents that one listing returns.
pub const CONSENT_PAGE_SIZE: usize = 10;

impl ApplicationRepoState {
    /// Applications, keyed by id.
    pub closed spec fn applications_seq(&self) -> Seq<(ApplicationId, Application)> {
        self.applications@.map_values(|a: Application| (a.application_id, a))
    }

    /// Redirect URL lists, keyed by application.
    pub closed spec fn redirect_urls_seq(&self) -> Seq<(ApplicationId, Seq<Seq<char>>)> {
        self.application_redirect_urls@.map_values(|p: (ApplicationId, Vec<String>)| (p.0, strs(p.1@)))
    }

    /// Consents, keyed by account and application.
    pub closed spec fn consents_seq(&self) -> Seq<((AccountId, ApplicationId), ConsentView)> {
        self.account_application_consents@.map_values(
            |c: AccountApplicationConsent| ((c.account_id, c.application_id), c@),
        )
    }

    /// The applications in table order.
    pub closed spec fn application_list(&self) -> Seq<Application> {
        self.applications@
    }

    /// The consents in table order.
    pub closed spec fn consent_list(&self) -> Seq<ConsentView> {
        self.account_application_consents@.map_values(|c: AccountApplicationConsent| c@)
    }

    /// The table invariant: no key twice in any table.
    pub closed spec fn wf(&self) -> bool {
        &&& keys_unique(self.applications_seq())
        &&& keys_unique(self.redirect_urls_seq())
        &&& keys_unique(self.consents_seq())
    }

    /// The application with this id.
    pub open spec fn application(&self, id: ApplicationId) -> Option<Application> {
        lookup(self.applications_seq(), id)
    }

    /// The redirect URL list of the application, if one was started.
    pub open spec fn redirect_urls(&self, id: ApplicationId) -> Option<Seq<Seq<char>>> {
        lookup(self.redirect_urls_seq(), id)
    }

    /// The redirect URLs of the application; none if no list was started.
    pub open spec fn redirect_urls_or_empty(&self, id: ApplicationId) -> Seq<Seq<char>> {
        match self.redirect_urls(id) {
            Some(u) => u,
            None => Seq::empty(),
        }
    }

    /// The consent of the account to the application.
    pub open spec fn consent(&self, account_id: AccountId, application_id: ApplicationId) -> Option<ConsentView> {
        lookup(self.consents_seq(), (account_id, application_id))
    }

    /// Creates an empty state.
    pub fn new() -> (r: Self)
        ensures
            r.wf(),
            forall|id: ApplicationId| r.application(id) is None && r.redirect_urls(id) is None,
            forall|a: AccountId, id: ApplicationId| r.consent(a, id) is None,
            r.application_list().len() == 0,
            r.consent_list().len() == 0,
    {
        let r = ApplicationRepoState {
            applications: Vec::new(),
            application_redirect_urls: Vec::new(),
            account_application_consents: Vec::new(),
        };
        assert(r.applications_seq() =~= Seq::empty());
        assert(r.redirect_urls_seq() =~= Seq::empty());
        assert(r.consents_seq() =~= Seq::empty());
        r
    }

    fn find_application(&self, id: ApplicationId) -> (r: Option<usize>)
        requires
            self.wf(),
        ensures
            match r {
                Some(i) => i < self.applications@.len() && self.applications@[i as int].application_id == id
                    && self.application(id) == Some(self.applications@[i as int]),
                None => self.application(id) is None && !has_key(self.applications_seq(), id),
            },
    {
        let mut i: usize = 0;
        while i < self.applications.len()
            invariant
                i <= self.applications.len(),
                self.wf(),
                forall|j: int| 0 <= j < i ==> self.applications@[j].application_id != id,
            decreases self.applications.len() - i,
        {
            if self.applications[i].application_id == id {
                proof {
                    lemma_lookup_index(self.applications_seq(), i as int);
                }
                return Some(i);
            }
            i = i + 1;
        }
        proof {
            assert(!has_key(self.applications_seq(), id)) by {
                if has_key(self.applications_seq(), id) {
                    let j = choose|j: int| 0 <= j < self.applications_seq().len() && self.applications_seq()[j].0 == id;
                    assert(self.applications@[j].application_id == id);
                }
            }
            lemma_lookup_none(self.applications_seq(), id);
        }
        None
    }

    fn find_redirect_urls(&self, id: ApplicationId) -> (r: Option<usize>)
        requires
            self.wf(),
        ensures
            match r {
                Some(i) => i < self.application_redirect_urls@.len() && self.application_redirect_urls@[i as int].0 == id
                    && self.redirect_urls(id) == Some(strs(self.application_redirect_urls@[i as int].1@)),
                None => self.redirect_urls(id) is None && !has_key(self.redirect_urls_seq(), id),
            },
    {
        let mut i: usize = 0;
        while i < self.application_redirect_urls.len()
            invariant
                i <= self.application_redirect_urls.len(),
                self.wf(),
                forall|j: int| 0 <= j < i ==> self.application_redirect_urls@[j].0 != id,
            decreases self.application_redirect_urls.len() - i,
        {
            if self.application_redirect_urls[i].0 == id {
                proof {
                    lemma_lookup_index(self.redirect_urls_seq(), i as int);
                }
                return Some(i);
            }
            i = i + 1;
        }
        proof {
            assert(!has_key(self.redirect_urls_seq(), id)) by {
                if has_key(self.redirect_urls_seq(), id) {
                    let j = choose|j: int| 0 <= j < self.redirect_urls_seq().len() && self.redirect_urls_seq()[j].0 == id;
                    assert(self.application_redirect_urls@[j].0 == id);
                }
            }
            lemma_lookup_none(self.redirect_urls_seq(), id);
        }
        None
    }

    fn find_consent(&self, account_id: AccountId, application_id: ApplicationId) -> (r: Option<usize>)
        requires
            self.wf(),
        ensures
            match r {
                Some(i) => i < self.account_application_consents@.len()
                    && self.account_application_consents@[i as int].account_id == account_id
                    && self.account_application_consents@[i as int].application_id == application_id
                    && self.consent(account_id, application_id) == Some(self.account_application_consents@[i as int]@),
                None => self.consent(account_id, application_id) is None
                    && !has_key(self.consents_seq(), (account_id, application_id)),
            },
    {
        let mut i: usize = 0;
        while i < self.account_application_consents.len()
            invariant
                i <= self.account_application_consents.len(),
                self.wf(),
                forall|j: int| 0 <= j < i ==> (self.account_application_consents@[j].account_id, self.account_application_consents@[j].application_id) != (account_id, application_id),
            decreases self.account_application_consents.len() - i,
        {
            let c = &self.account_application_consents[i];
            if c.account_id == account_id && c.application_id == application_id {
                proof {
                    lemma_lookup_index(self.consents_seq(), i as int);
                }
                return Some(i);
            }
            i = i + 1;
        }
        proof {
            let key = (account_id, application_id);
            assert(!has_key(self.consents_seq(), key)) by {
                if has_key(self.consents_seq(), key) {
                    let j = choose|j: int| 0 <= j < self.consents_seq().len() && self.consents_seq()[j].0 == key;
                    assert(self.consents_seq()[j].0 == (self.account_application_consents@[j].account_id, self.account_application_consents@[j].application_id));
                }
            }
            lemma_lookup_none(self.consents_seq(), key);
        }
        None
    }

    /// The applications that the account owns.
    pub fn list_by_owner(&self, account_id: AccountId) -> (r: Vec<OwnedApplicationSummary>)
        ensures
            r@ == select(self.application_list(), owned_by(account_id), summary_of()),
    {
        let mut r: Vec<OwnedApplicationSummary> = Vec::new();
        let mut i: usize = 0;
        while i < self.applications.len()
            invariant
                i <= self.applications.len(),
                r@ == select(self.application_list().take(i as int), owned_by(account_id), summary_of()),
            decreases self.applications.len() - i,
        {
            proof {
                lemma_select_step(self.application_list(), owned_by(account_id), summary_of(), i as int);
            }
            let a = &self.applications[i];
            if a.owner_account_id == account_id {
                r.push(OwnedApplicationSummary { application_id: a.application_id, name: a.name.clone() });
            }
            i = i + 1;
        }
        assert(self.application_list().take(self.applications.len() as int) =~= self.application_list());
        r
    }

    /// The redirect URLs of the application.
    pub fn list_redirect_urls(&self, application_id: ApplicationId) -> (r: Vec<String>)
        requires
            self.wf(),
        ensures
            strs(r@) == self.redirect_urls_or_empty(application_id),
    {
        match self.find_redirect_urls(application_id) {
            Some(i) => copy_strings(&self.application_redirect_urls[i].1),
            None => Vec::new(),
        }
    }

    /// Whether the account owns the application.
    pub fn is_owned_by(&self, application_id: ApplicationId, account_id: AccountId) -> (r: bool)
        requires
            self.wf(),
        ensures
            r == (self.application(application_id) matches Some(a) && a.owner_account_id == account_id),
    {
        match self.find_application(application_id) {
            Some(i) => self.applications[i].owner_account_id == account_id,
            None => false,
        }
    }

    /// Whether the account has authorized the application.
    pub fn consent_exists(&self, account_id: AccountId, application_id: ApplicationId) -> (r: bool)
        requires
            self.wf(),
        ensures
            r == (self.consent(account_id, application_id) is Some),
    {
        self.find_consent(account_id, application_id).is_some()
    }

    /// The entry that lists consent `c`.
    pub open spec fn listed_entry(&self, c: ConsentView) -> OwnedApplicationAccountConsent {
        OwnedApplicationAccountConsent {
            application_id: c.application_id,
            name: self.application(c.application_id)->0.name,
            created_at: c.created_at,
        }
    }

    /// `r` is the page of consents of the account after `after`: the ones
    /// with the smallest application ids, at most a page of them, ascending.
    pub open spec fn consent_page(
        &self,
        account_id: AccountId,
        after: Option<ApplicationId>,
        r: Seq<OwnedApplicationAccountConsent>,
    ) -> bool {
        let list = self.consent_list();
        &&& r.len() <= CONSENT_PAGE_SIZE
        &&& forall|k1: int, k2: int| 0 <= k1 < k2 < r.len() ==> r[k1].application_id.0 < r[k2].application_id.0
        &&& forall|k: int| #![trigger r[k]] 0 <= k < r.len() ==> exists|i: int| #![trigger list[i]] 0 <= i < list.len()
            && consent_listed(list[i], account_id, after) && r[k] == self.listed_entry(list[i])
        &&& forall|i: int| #![trigger list[i]] 0 <= i < list.len() && consent_listed(list[i], account_id, after) ==> (exists|k: int|
            #![trigger r[k]] 0 <= k < r.len() && r[k].application_id == list[i].application_id) || (r.len() == CONSENT_PAGE_SIZE
            && list[i].application_id.0 > r[r.len() - 1].application_id.0)
    }

    /// Every consent that a listing would show has its application.
    pub open spec fn listed_applications_exist(&self, account_id: AccountId, after: Option<ApplicationId>) -> bool {
        forall|i: int| 0 <= i < self.consent_list().len() && consent_listed(self.consent_list()[i], account_id, after)
            ==> self.application(self.consent_list()[i].application_id) is Some
    }

    fn next_listed(&self, account_id: AccountId, after: Option<ApplicationId>, last: Option<u64>) -> (r: Option<usize>)
        ensures
            match r {
                Some(b) => b < self.consent_list().len() && consent_listed(self.consent_list()[b as int], account_id, after)
                    && above(last, self.consent_list()[b as int]) && forall|j: int| #![trigger self.consent_list()[j]]
                    0 <= j < self.consent_list().len() && consent_listed(self.consent_list()[j], account_id, after)
                    && above(last, self.consent_list()[j]) ==> self.consent_list()[b as int].application_id.0
                    <= self.consent_list()[j].application_id.0,
                None => forall|j: int| #![trigger self.consent_list()[j]] 0 <= j < self.consent_list().len() ==> !(
                consent_listed(self.consent_list()[j], account_id, after) && above(last, self.consent_list()[j])),
            },
    {
        let ghost list = self.consent_list();
        let n = self.account_application_consents.len();
        let mut best: Option<usize> = None;
        let mut i: usize = 0;
        while i < n
            invariant
                i <= n,
                n == list.len(),
                list == self.consent_list(),
                match best {
                    Some(b) => b < i && consent_listed(list[b as int], account_id, after) && above(last, list[b as int]),
                    None => true,
                },
                forall|j: int| #![trigger list[j]] 0 <= j < i && consent_listed(list[j], account_id, after)
                    && above(last, list[j]) ==> (best matches Some(b) && list[b as int].application_id.0
                    <= list[j].application_id.0),
            decreases n - i,
        {
            let c = &self.account_application_consents[i];
            assert(list[i as int] == c@);
            let listed = c.account_id == account_id && match after {
                Some(a) => c.application_id.0 > a.0,
                None => true,
            };
            let is_above = match last {
                Some(l) => c.application_id.0 > l,
                None => true,
            };
            if listed && is_above {
                let better = match best {
                    Some(b) => c.application_id.0 < self.account_application_consents[b].application_id.0,
                    None => true,
                };
                if better {
                    best = Some(i);
                }
            }
            i = i + 1;
        }
        best
    }

    /// The entries of `r` are ascending, at most a page, and list consents
    /// of the account after `after`.
    #[verifier::opaque]
    pub open spec fn page_sound(&self, account_id: AccountId, after: Option<ApplicationId>, r: Seq<OwnedApplicationAccountConsent>) -> bool {
        let list = self.consent_list();
        &&& r.len() <= CONSENT_PAGE_SIZE
        &&& forall|k1: int, k2: int| 0 <= k1 < k2 < r.len() ==> r[k1].application_id.0 < r[k2].application_id.0
        &&& forall|k: int| #![trigger r[k]] 0 <= k < r.len() ==> exists|i: int| #![trigger list[i]] 0 <= i < list.len()
            && consent_listed(list[i], account_id, after) && r[k] == self.listed_entry(list[i])
    }

    /// Every consent listed after `after` whose application id is at most
    /// `last` (every one, for `None` as `last` and `full`) has its entry in `r`.
    #[verifier::opaque]
    pub open spec fn page_covers(
        &self,
        account_id: AccountId,
        after: Option<ApplicationId>,
        r: Seq<OwnedApplicationAccountConsent>,
        last: Option<u64>,
        full: bool,
    ) -> bool {
        let list = self.consent_list();
        forall|i: int| #![trigger list[i]] 0 <= i < list.len() && consent_listed(list[i], account_id, after)
            && (full || (last matches Some(l) && list[i].application_id.0 <= l)) ==> exists|k: int|
            #![trigger r[k]] 0 <= k < r.len() && r[k].application_id == list[i].application_id
    }

    proof fn lemma_page_push_sound(
        &self,
        account_id: AccountId,
        after: Option<ApplicationId>,
        r: Seq<OwnedApplicationAccountConsent>,
        last: Option<u64>,
        b: int,
    )
        requires
            self.page_sound(account_id, after, r),
            r.len() < CONSENT_PAGE_SIZE,
            last matches Some(l) ==> r.len() > 0 && l == r[r.len() - 1].application_id.0,
            last is None ==> r.len() == 0,
            0 <= b < self.consent_list().len(),
            consent_listed(self.consent_list()[b], account_id, after),
            above(last, self.consent_list()[b]),
        ensures
            self.page_sound(account_id, after, r.push(self.listed_entry(self.consent_list()[b]))),
    {
        reveal(ApplicationRepoState::page_sound);
        let list = self.consent_list();
        let e = self.listed_entry(list[b]);
        let r2 = r.push(e);
        assert forall|k1: int, k2: int| 0 <= k1 < k2 < r2.len() implies r2[k1].application_id.0 < r2[k2].application_id.0 by {
            if k2 == r.len() {
                assert(r2[k1] == r[k1]);
                if k1 < r.len() - 1 {
                    assert(r[k1].application_id.0 < r[r.len() - 1].application_id.0);
                }
            } else {
                assert(r2[k1] == r[k1] && r2[k2] == r[k2]);
            }
        }
        assert forall|k: int| #![trigger r2[k]] 0 <= k < r2.len() implies exists|i: int| #![trigger list[i]] 0 <= i < list.len()
            && consent_listed(list[i], account_id, after) && r2[k] == self.listed_entry(list[i]) by {
            if k < r.len() {
                assert(r2[k] == r[k]);
            } else {
                assert(r2[k] == self.listed_entry(list[b]));
            }
        }
    }

    proof fn lemma_page_push_covers(
        &self,
        account_id: AccountId,
        after: Option<ApplicationId>,
        r: Seq<OwnedApplicationAccountConsent>,
        last: Option<u64>,
        b: int,
    )
        requires
            self.page_covers(account_id, after, r, last, false),
            0 <= b < self.consent_list().len(),
            consent_listed(self.consent_list()[b], account_id, after),
            above(last, self.consent_list()[b]),
            forall|j: int| #![trigger self.consent_list()[j]] 0 <= j < self.consent_list().len() && consent_listed(self.consent_list()[j], account_id, after)
                && above(last, self.consent_list()[j]) ==> self.consent_list()[b].application_id.0
                <= self.consent_list()[j].application_id.0,
        ensures
            self.page_covers(
                account_id,
                after,
                r.push(self.listed_entry(self.consent_list()[b])),
                Some(self.consent_list()[b].application_id.0),
                false,
            ),
    {
        reveal(ApplicationRepoState::page_covers);
        let list = self.consent_list();
        let e = self.listed_entry(list[b]);
        let r2 = r.push(e);
        let nl = Some(list[b].application_id.0);
        assert forall|j: int| #![trigger list[j]] 0 <= j < list.len() && consent_listed(list[j], account_id, after)
            && (false || (nl matches Some(l) && list[j].application_id.0 <= l)) implies exists|k: int|
            #![trigger r2[k]] 0 <= k < r2.len() && r2[k].application_id == list[j].application_id by {
            if last matches Some(l) && list[j].application_id.0 <= l {
                let k = choose|k: int| #![trigger r[k]] 0 <= k < r.len() && r[k].application_id == list[j].application_id;
                assert(r2[k] == r[k]);
            } else {
                assert(above(last, list[j]));
                assert(list[j].application_id.0 == list[b].application_id.0);
                assert(r2[r.len() as int].application_id == list[j].application_id);
            }
        }
    }

    proof fn lemma_page_exhausted(
        &self,
        account_id: AccountId,
        after: Option<ApplicationId>,
        r: Seq<OwnedApplicationAccountConsent>,
        last: Option<u64>,
    )
        requires
            self.page_covers(account_id, after, r, last, false),
            forall|j: int| #![trigger self.consent_list()[j]] 0 <= j < self.consent_list().len() ==> !(
            consent_listed(self.consent_list()[j], account_id, after) && above(last, self.consent_list()[j])),
        ensures
            self.page_covers(account_id, after, r, last, true),
    {
        reveal(ApplicationRepoState::page_covers);
    }

    proof fn lemma_page_complete(
        &self,
        account_id: AccountId,
        after: Option<ApplicationId>,
        r: Seq<OwnedApplicationAccountConsent>,
        last: Option<u64>,
        full: bool,
    )
        requires
            self.page_sound(account_id, after, r),
            self.page_covers(account_id, after, r, last, full),
            full || r.len() == CONSENT_PAGE_SIZE,
            last matches Some(l) ==> r.len() > 0 && l == r[r.len() - 1].application_id.0,
            last is None ==> r.len() == 0,
        ensures
            self.consent_page(account_id, after, r),
    {
        reveal(ApplicationRepoState::page_sound);
        reveal(ApplicationRepoState::page_covers);
        let list = self.consent_list();
        assert forall|i: int| #![trigger list[i]] 0 <= i < list.len() && consent_listed(list[i], account_id, after)
            implies (exists|k: int| #![trigger r[k]] 0 <= k < r.len() && r[k].application_id == list[i].application_id)
            || (r.len() == CONSENT_PAGE_SIZE && list[i].application_id.0 > r[r.len() - 1].application_id.0) by {
            if !full {
                if !(last matches Some(l) && list[i].application_id.0 <= l) {
                    assert(r.len() == CONSENT_PAGE_SIZE);
                }
            }
        }
    }

    /// The consents of the account to applications after `after`, by
    /// ascending application id, at most a page of them.
    pub fn list_consents(&self, account_id: AccountId, after_application_id: Option<ApplicationId>) -> (r: Vec<OwnedApplicationAccountConsent>)
        requires
            self.wf(),
            self.listed_applications_exist(account_id, after_application_id),
        ensures
            self.consent_page(account_id, after_application_id, r@),
    {
        let mut res: Vec<OwnedApplicationAccountConsent> = Vec::new();
        let mut last: Option<u64> = None;
        let mut done = false;
        proof {
            reveal(ApplicationRepoState::page_sound);
            reveal(ApplicationRepoState::page_covers);
        }
        while !done && res.len() < CONSENT_PAGE_SIZE
            invariant
                self.wf(),
                self.listed_applications_exist(account_id, after_application_id),
                res.len() <= CONSENT_PAGE_SIZE,
                self.page_sound(account_id, after_application_id, res@),
                self.page_covers(account_id, after_application_id, res@, last, done),
                last is None <==> res.len() == 0,
                last matches Some(l) ==> res.len() > 0 && l == res@[res.len() - 1].application_id.0,
            decreases CONSENT_PAGE_SIZE - res.len(), if done { 0int } else { 1int },
        {
            match self.next_listed(account_id, after_application_id, last) {
                None => {
                    proof {
                        self.lemma_page_exhausted(account_id, after_application_id, res@, last);
                    }
                    done = true;
                },
                Some(b) => {
                    let c = &self.account_application_consents[b];
                    assert(self.consent_list()[b as int] == c@);
                    let ai = self.find_application(c.application_id).unwrap();
                    let entry = OwnedApplicationAccountConsent {
                        application_id: c.application_id,
                        name: self.applications[ai].name.clone(),
                        created_at: c.created_at,
                    };
                    proof {
                        self.lemma_page_push_sound(account_id, after_application_id, res@, last, b as int);
                        self.lemma_page_push_covers(account_id, after_application_id, res@, last, b as int);
                    }
                    res.push(entry);
                    last = Some(c.application_id.0);
                },
            }
        }
        proof {
            self.lemma_page_complete(account_id, after_application_id, res@, last, done);
        }
        res
    }

}

/// `i` is the first index at which `x` occurs in `s`.
pub open spec fn is_first_index(s: Seq<Seq<char>>, x: Seq<char>, i: int) -> bool {
    &&& 0 <= i < s.len()
    &&& s[i] == x
    &&& forall|j: int| 0 <= j < i ==> s[j] != x
}

/// `s` without the first occurrence of `x`, if it has one.
pub open spec fn without_first(s: Seq<Seq<char>>, x: Seq<char>) -> Seq<Seq<char>> {
    if s.contains(x) {
        s.remove(choose|i: int| is_first_index(s, x, i))
    } else {
        s
    }
}

/// Whether the key of a consent names the application.
pub open spec fn consent_of_application(id: ApplicationId) -> spec_fn((AccountId, ApplicationId)) -> bool {
    |k: (AccountId, ApplicationId)| k.1 == id
}

/// Identity on applications.
pub open spec fn same_application() -> spec_fn(Application) -> Application {
    |a: Application| a
}

proof fn lemma_first_index_unique(s: Seq<Seq<char>>, x: Seq<char>, i: int)
    requires
        is_first_index(s, x, i),
    ensures
        s.contains(x),
        (choose|k: int| is_first_index(s, x, k)) == i,
        without_first(s, x) == s.remove(i),
{
    assert(s[i] == x);
    let k = choose|k: int| is_first_index(s, x, k);
    assert(is_first_index(s, x, k));
    if k < i {
        assert(s[k] != x);
    }
    if k > i {
        assert(s[i] != x);
    }
}

fn find_string(v: &Vec<String>, x: &String) -> (r: Option<usize>)
    ensures
        match r {
            Some(k) => is_first_index(strs(v@), x@, k as int),
            None => !strs(v@).contains(x@),
        },
{
    let mut k: usize = 0;
    while k < v.len()
        invariant
            k <= v.len(),
            forall|j: int| 0 <= j < k ==> strs(v@)[j] != x@,
        decreases v.len() - k,
    {
        if v[k].eq(x) {
            return Some(k);
        }
        k = k + 1;
    }
    proof {
        if strs(v@).contains(x@) {
            let j = choose|j: int| 0 <= j < strs(v@).len() && strs(v@)[j] == x@;
            assert(strs(v@)[j] != x@);
        }
    }
    None
}

impl ApplicationRepoState {
    /// The two states hold the same tables, in the same order.
    pub open spec fn same_contents(&self, other: &Self) -> bool {
        &&& self.applications_seq() == other.applications_seq()
        &&& self.application_list() == other.application_list()
        &&& self.redirect_urls_seq() == other.redirect_urls_seq()
        &&& self.consents_seq() == other.consents_seq()
        &&& self.consent_list() == other.consent_list()
    }

    /// The number of applications that the account owns.
    pub open spec fn owned_count(&self, account_id: AccountId) -> nat {
        select(self.application_list(), owned_by(account_id), same_application()).len()
    }

    /// A copy of the state.
    pub fn copy(&self) -> (r: Self)
        requires
            self.wf(),
        ensures
            r.wf(),
            r.same_contents(self),
    {
        let mut applications: Vec<Application> = Vec::new();
        let mut i: usize = 0;
        while i < self.applications.len()
            invariant
                i <= self.applications.len(),
                applications@ == self.applications@.take(i as int),
            decreases self.applications.len() - i,
        {
            applications.push(self.applications[i].copy());
            assert(self.applications@.take(i + 1) =~= self.applications@.take(i as int).push(self.applications@[i as int]));
            i = i + 1;
        }
        let mut urls: Vec<(ApplicationId, Vec<String>)> = Vec::new();
        let mut i: usize = 0;
        while i < self.application_redirect_urls.len()
            invariant
                i <= self.application_redirect_urls.len(),
                urls@.len() == i,
                forall|j: int| 0 <= j < i ==> #[trigger] urls@[j].0 == self.application_redirect_urls@[j].0
                    && strs(urls@[j].1@) == strs(self.application_redirect_urls@[j].1@),
            decreases self.application_redirect_urls.len() - i,
        {
            let entry = &self.application_redirect_urls[i];
            urls.push((entry.0, copy_strings(&entry.1)));
            i = i + 1;
        }
        let mut consents: Vec<AccountApplicationConsent> = Vec::new();
        let mut i: usize = 0;
        while i < self.account_application_consents.len()
            invariant
                i <= self.account_application_consents.len(),
                consents@.len() == i,
                forall|j: int| 0 <= j < i ==> (#[trigger] consents@[j])@ == self.account_application_consents@[j]@,
            decreases self.account_application_consents.len() - i,
        {
            consents.push(copy_consent(&self.account_application_consents[i]));
            i = i + 1;
        }
        assert(self.applications@.take(self.applications.len() as int) =~= self.applications@);
        let r = ApplicationRepoState {
            applications,
            application_redirect_urls: urls,
            account_application_consents: consents,
        };
        assert(r.applications_seq() =~= self.applications_seq());
        assert(r.redirect_urls_seq() =~= self.redirect_urls_seq());
        assert(r.consents_seq() =~= self.consents_seq());
        assert(r.consent_list() =~= self.consent_list());
        r
    }

    /// Inserts the application, replacing one with the same id.
    fn put_application(&mut self, a: Application)
        requires
            old(self).wf(),
        ensures
            final(self).wf(),
            forall|x: ApplicationId| #[trigger] final(self).application(x) == if x == a.application_id {
                Some(a)
            } else {
                old(self).application(x)
            },
            final(self).redirect_urls_seq() == old(self).redirect_urls_seq(),
            final(self).consents_seq() == old(self).consents_seq(),
            final(self).consent_list() == old(self).consent_list(),
    {
        let ghost s0 = self.applications_seq();
        let id = a.application_id;
        match self.find_application(id) {
            Some(i) => {
                self.applications.set(i, a);
                proof {
                    assert(self.applications_seq() =~= s0.update(i as int, (s0[i as int].0, a)));
                    assert forall|x: ApplicationId| #[trigger] self.application(x) == if x == id {
                        Some(a)
                    } else {
                        old(self).application(x)
                    } by {
                        lemma_lookup_update(s0, i as int, a, x);
                    }
                    lemma_lookup_update(s0, i as int, a, id);
                }
            },
            None => {
                self.applications.push(a);
                proof {
                    assert(self.applications_seq() =~= s0.push((id, a)));
                    lemma_unique_push(s0, id, a);
                    assert forall|x: ApplicationId| #[trigger] self.application(x) == if x == id {
                        Some(a)
                    } else {
                        old(self).application(x)
                    } by {
                        lemma_lookup_push(s0, id, a, x);
                    }
                }
            },
        }
    }

    /// Removes the application, if it is there.
    fn remove_application(&mut self, id: ApplicationId)
        requires
            old(self).wf(),
        ensures
            final(self).wf(),
            forall|x: ApplicationId| #[trigger] final(self).application(x) == if x == id {
                None
            } else {
                old(self).application(x)
            },
            final(self).redirect_urls_seq() == old(self).redirect_urls_seq(),
            final(self).consents_seq() == old(self).consents_seq(),
            final(self).consent_list() == old(self).consent_list(),
    {
        let ghost s0 = self.applications_seq();
        if let Some(i) = self.find_application(id) {
            self.applications.remove(i);
            proof {
                assert(self.applications_seq() =~= s0.remove(i as int));
                assert forall|x: ApplicationId| #[trigger] self.application(x) == if x == id {
                    None
                } else {
                    old(self).application(x)
                } by {
                    lemma_lookup_remove(s0, i as int, x);
                }
                lemma_lookup_remove(s0, i as int, id);
            }
        }
    }

    /// Removes the redirect URL list of the application, if it has one.
    fn remove_redirect_urls(&mut self, id: ApplicationId)
        requires
            old(self).wf(),
        ensures
            final(self).wf(),
            forall|x: ApplicationId| #[trigger] final(self).redirect_urls(x) == if x == id {
                None
            } else {
                old(self).redirect_urls(x)
            },
            final(self).applications_seq() == old(self).applications_seq(),
            final(self).application_list() == old(self).application_list(),
            final(self).consents_seq() == old(self).consents_seq(),
            final(self).consent_list() == old(self).consent_list(),
    {
        let ghost s0 = self.redirect_urls_seq();
        if let Some(i) = self.find_redirect_urls(id) {
            self.application_redirect_urls.remove(i);
            proof {
                assert(self.redirect_urls_seq() =~= s0.remove(i as int));
                assert forall|x: ApplicationId| #[trigger] self.redirect_urls(x) == if x == id {
                    None
                } else {
                    old(self).redirect_urls(x)
                } by {
                    lemma_lookup_remove(s0, i as int, x);
                }
                lemma_lookup_remove(s0, i as int, id);
            }
        }
    }

    /// Keeps the consents to the application and drops all others.
    fn retain_consents_of(&mut self, id: ApplicationId)
        requires
            old(self).wf(),
        ensures
            final(self).wf(),
            forall|a: AccountId, x: ApplicationId| #[trigger] final(self).consent(a, x) == if x == id {
                old(self).consent(a, x)
            } else {
                None
            },
            final(self).applications_seq() == old(self).applications_seq(),
            final(self).application_list() == old(self).application_list(),
            final(self).redirect_urls_seq() == old(self).redirect_urls_seq(),
    {
        let ghost s0 = self.consents_seq();
        let ghost keep = consent_of_application(id);
        let mut kept: Vec<AccountApplicationConsent> = Vec::new();
        let mut i: usize = 0;
        while i < self.account_application_consents.len()
            invariant
                i <= self.account_application_consents.len(),
                s0 == self.consents_seq(),
                keep == consent_of_application(id),
                kept@.map_values(|c: AccountApplicationConsent| ((c.account_id, c.application_id), c@))
                    == filter_keys(s0.take(i as int), keep),
            decreases self.account_application_consents.len() - i,
        {
            proof {
                lemma_select_step(s0, |p: ((AccountId, ApplicationId), ConsentView)| keep(p.0),
                    |p: ((AccountId, ApplicationId), ConsentView)| p, i as int);
            }
            let c = &self.account_application_consents[i];
            assert(s0[i as int] == ((c.account_id, c.application_id), c@));
            if c.application_id == id {
                let ghost before = kept@;
                kept.push(copy_consent(c));
                assert(kept@.map_values(|c: AccountApplicationConsent| ((c.account_id, c.application_id), c@))
                    =~= before.map_values(|c: AccountApplicationConsent| ((c.account_id, c.application_id), c@))
                    .push(s0[i as int]));
            }
            i = i + 1;
        }
        assert(s0.take(self.account_application_consents.len() as int) =~= s0);
        self.account_application_consents = kept;
        proof {
            assert(self.consents_seq() == filter_keys(s0, keep));
            assert forall|a: AccountId, x: ApplicationId| #[trigger] self.consent(a, x) == if x == id {
                old(self).consent(a, x)
            } else {
                None
            } by {
                lemma_lookup_filter(s0, keep, (a, x));
            }
            lemma_lookup_filter(s0, keep, (AccountId(0), id));
        }
    }
}

/// `b` is `a` with its name replaced by `name`.
pub open spec fn renamed(name: Seq<char>) -> spec_fn(Application, Application) -> bool {
    |a: Application, b: Application| {
        &&& b.application_id == a.application_id
        &&& b.owner_account_id == a.owner_account_id
        &&& b.client_secret_hash == a.client_secret_hash
        &&& b.name@ == name
    }
}

/// The application with its client secret hash replaced.
pub open spec fn with_secret_hash(a: Application, hash: [u8; 32]) -> Application {
    Application { client_secret_hash: hash, ..a }
}

/// The application with this id, if there is one, changed as `rel` says;
/// the others unchanged.
pub open spec fn updated_application(
    old: ApplicationRepoState,
    new: ApplicationRepoState,
    id: ApplicationId,
    rel: spec_fn(Application, Application) -> bool,
) -> bool {
    &&& forall|x: ApplicationId| x != id ==> #[trigger] new.application(x) == old.application(x)
    &&& match old.application(id) {
        Some(a) => new.application(id) matches Some(b) && rel(a, b),
        None => new.application(id) is None,
    }
}

impl ApplicationRepoState {
    /// Puts `new_app` in place of the application at index `i`, which has
    /// the same id.
    fn replace_application(&mut self, i: usize, new_app: Application)
        requires
            old(self).wf(),
            i < old(self).applications@.len(),
            new_app.application_id == old(self).applications@[i as int].application_id,
        ensures
            final(self).wf(),
            forall|x: ApplicationId| #[trigger] final(self).application(x) == if x == new_app.application_id {
                Some(new_app)
            } else {
                old(self).application(x)
            },
            final(self).redirect_urls_seq() == old(self).redirect_urls_seq(),
            final(self).consents_seq() == old(self).consents_seq(),
            final(self).consent_list() == old(self).consent_list(),
    {
        let ghost s0 = self.applications_seq();
        let id = new_app.application_id;
        self.applications.set(i, new_app);
        proof {
            assert(self.applications_seq() =~= s0.update(i as int, (s0[i as int].0, new_app)));
            assert forall|x: ApplicationId| #[trigger] self.application(x) == if x == id {
                Some(new_app)
            } else {
                old(self).application(x)
            } by {
                lemma_lookup_update(s0, i as int, new_app, x);
            }
            lemma_lookup_update(s0, i as int, new_app, id);
        }
    }

    /// Renames the application, if it is there.
    fn rename_application(&mut self, id: ApplicationId, name: &str)
        requires
            old(self).wf(),
        ensures
            final(self).wf(),
            updated_application(*old(self), *final(self), id, renamed(name@)),
            final(self).redirect_urls_seq() == old(self).redirect_urls_seq(),
            final(self).consents_seq() == old(self).consents_seq(),
            final(self).consent_list() == old(self).consent_list(),
    {
        if let Some(i) = self.find_application(id) {
            let old_app = self.applications[i].copy();
            let new_app = Application { name: name.to_owned(), ..old_app };
            self.replace_application(i, new_app);
        }
    }

    /// Replaces the client secret hash of the application, if it is there.
    fn rehash_application(&mut self, id: ApplicationId, hash: [u8; 32])
        requires
            old(self).wf(),
        ensures
            final(self).wf(),
            updated_application(*old(self), *final(self), id, |a: Application, b: Application| b == with_secret_hash(a, hash)),
            final(self).redirect_urls_seq() == old(self).redirect_urls_seq(),
            final(self).consents_seq() == old(self).consents_seq(),
            final(self).consent_list() == old(self).consent_list(),
    {
        if let Some(i) = self.find_application(id) {
            let old_app = self.applications[i].copy();
            let new_app = Application { client_secret_hash: hash, ..old_app };
            self.replace_application(i, new_app);
        }
    }

    /// Records the consent, created at `created_at`, unless the account has
    /// already given one to the application.
    fn put_consent(&mut self, account_id: AccountId, application_id: ApplicationId, created_at: i64)
        requires
            old(self).wf(),
        ensures
            final(self).wf(),
            forall|a: AccountId, x: ApplicationId| #[trigger] final(self).consent(a, x) == if a == account_id && x
                == application_id && old(self).consent(a, x) is None {
                Some(fresh_consent(account_id, application_id, created_at))
            } else {
                old(self).consent(a, x)
            },
            final(self).applications_seq() == old(self).applications_seq(),
            final(self).application_list() == old(self).application_list(),
            final(self).redirect_urls_seq() == old(self).redirect_urls_seq(),
    {
        let ghost s0 = self.consents_seq();
        if self.find_consent(account_id, application_id).is_some() {
            return;
        }
        let c = AccountApplicationConsent {
            account_id,
            application_id,
            created_at,
            key_encryption_algorithm: KeyEncryptionAlgorithm::Unencrypted,
            master_key_encrypted_key: None,
            master_key_id: None,
        };
        assert(c@ == fresh_consent(account_id, application_id, created_at));
        self.account_application_consents.push(c);
        proof {
            let key = (account_id, application_id);
            assert(self.consents_seq() =~= s0.push((key, c@)));
            lemma_unique_push(s0, key, c@);
            assert forall|a: AccountId, x: ApplicationId| #[trigger] self.consent(a, x) == if a == account_id && x
                == application_id && old(self).consent(a, x) is None {
                Some(fresh_consent(account_id, application_id, created_at))
            } else {
                old(self).consent(a, x)
            } by {
                lemma_lookup_push(s0, key, c@, (a, x));
            }
        }
    }

    /// Removes the consent, if it is there.
    fn remove_consent(&mut self, account_id: AccountId, application_id: ApplicationId)
        requires
            old(self).wf(),
        ensures
            final(self).wf(),
            forall|a: AccountId, x: ApplicationId| #[trigger] final(self).consent(a, x) == if a == account_id && x
                == application_id {
                None
            } else {
                old(self).consent(a, x)
            },
            final(self).applications_seq() == old(self).applications_seq(),
            final(self).application_list() == old(self).application_list(),
            final(self).redirect_urls_seq() == old(self).redirect_urls_seq(),
    {
        let ghost s0 = self.consents_seq();
        if let Some(i) = self.find_consent(account_id, application_id) {
            self.account_application_consents.remove(i);
            proof {
                assert(self.consents_seq() =~= s0.remove(i as int));
                assert forall|a: AccountId, x: ApplicationId| #[trigger] self.consent(a, x) == if a == account_id && x
                    == application_id {
                    None
                } else {
                    old(self).consent(a, x)
                } by {
                    lemma_lookup_remove(s0, i as int, (a, x));
                }
            }
        }
    }

    /// The index of the redirect URL list of the application, starting an
    /// empty one if it has none.
    fn redirect_urls_entry(&mut self, id: ApplicationId) -> (i: usize)
        requires
            old(self).wf(),
        ensures
            final(self).wf(),
            i < final(self).application_redirect_urls@.len(),
            final(self).application_redirect_urls@[i as int].0 == id,
            strs(final(self).application_redirect_urls@[i as int].1@) == old(self).redirect_urls_or_empty(id),
            forall|x: ApplicationId| #[trigger] final(self).redirect_urls(x) == if x == id {
                Some(old(self).redirect_urls_or_empty(id))
            } else {
                old(self).redirect_urls(x)
            },
            final(self).applications_seq() == old(self).applications_seq(),
            final(self).application_list() == old(self).application_list(),
            final(self).consents_seq() == old(self).consents_seq(),
            final(self).consent_list() == old(self).consent_list(),
    {
        let ghost s0 = self.redirect_urls_seq();
        match self.find_redirect_urls(id) {
            Some(i) => {
                proof {
                    assert forall|x: ApplicationId| #[trigger] self.redirect_urls(x) == if x == id {
                        Some(old(self).redirect_urls_or_empty(id))
                    } else {
                        old(self).redirect_urls(x)
                    } by {}
                }
                i
            },
            None => {
                self.application_redirect_urls.push((id, Vec::new()));
                let i = self.application_redirect_urls.len() - 1;
                proof {
                    let e: Seq<Seq<char>> = Seq::empty();
                    assert(strs(Seq::<String>::empty()) =~= e);
                    assert(self.redirect_urls_seq() =~= s0.push((id, e)));
                    lemma_unique_push(s0, id, e);
                    assert forall|x: ApplicationId| #[trigger] self.redirect_urls(x) == if x == id {
                        Some(old(self).redirect_urls_or_empty(id))
                    } else {
                        old(self).redirect_urls(x)
                    } by {
                        lemma_lookup_push(s0, id, e, x);
                    }
                }
                i
            },
        }
    }

    /// Replaces the list at index `i` with `urls`.
    fn set_redirect_urls(&mut self, i: usize, urls: Vec<String>)
        requires
            old(self).wf(),
            i < old(self).application_redirect_urls@.len(),
        ensures
            final(self).wf(),
            forall|x: ApplicationId| #[trigger] final(self).redirect_urls(x) == if x == old(self).application_redirect_urls@[i as int].0 {
                Some(strs(urls@))
            } else {
                old(self).redirect_urls(x)
            },
            final(self).applications_seq() == old(self).applications_seq(),
            final(self).application_list() == old(self).application_list(),
            final(self).consents_seq() == old(self).consents_seq(),
            final(self).consent_list() == old(self).consent_list(),
    {
        let ghost s0 = self.redirect_urls_seq();
        let ghost v = strs(urls@);
        let id = self.application_redirect_urls[i].0;
        self.application_redirect_urls.set(i, (id, urls));
        proof {
            assert(self.redirect_urls_seq() =~= s0.update(i as int, (s0[i as int].0, v)));
            assert forall|x: ApplicationId| #[trigger] self.redirect_urls(x) == if x == id {
                Some(v)
            } else {
                old(self).redirect_urls(x)
            } by {
                lemma_lookup_update(s0, i as int, v, x);
            }
        }
    }

    /// Adds the redirect URL to the application's list, unless the list
    /// already has it. Returns whether it was added. The application gets a
    /// list either way.
    fn add_redirect_url(&mut self, id: ApplicationId, redirect_url: &str) -> (r: bool)
        requires
            old(self).wf(),
        ensures
            final(self).wf(),
            r == !old(self).redirect_urls_or_empty(id).contains(redirect_url@),
            forall|x: ApplicationId| #[trigger] final(self).redirect_urls(x) == if x == id {
                Some(if r {
                    old(self).redirect_urls_or_empty(id).push(redirect_url@)
                } else {
                    old(self).redirect_urls_or_empty(id)
                })
            } else {
                old(self).redirect_urls(x)
            },
            final(self).applications_seq() == old(self).applications_seq(),
            final(self).application_list() == old(self).application_list(),
            final(self).consents_seq() == old(self).consents_seq(),
            final(self).consent_list() == old(self).consent_list(),
    {
        let i = self.redirect_urls_entry(id);
        let url = redirect_url.to_owned();
        if find_string(&self.application_redirect_urls[i].1, &url).is_some() {
            return false;
        }
        let mut urls = copy_strings(&self.application_redirect_urls[i].1);
        let ghost before = urls@;
        urls.push(url);
        assert(strs(urls@) =~= strs(before).push(redirect_url@));
        self.set_redirect_urls(i, urls);
        true
    }

    /// Removes the first occurrence of the redirect URL from the
    /// application's list. The application gets a list either way.
    fn drop_redirect_url(&mut self, id: ApplicationId, redirect_url: &str)
        requires
            old(self).wf(),
        ensures
            final(self).wf(),
            forall|x: ApplicationId| #[trigger] final(self).redirect_urls(x) == if x == id {
                Some(without_first(old(self).redirect_urls_or_empty(id), redirect_url@))
            } else {
                old(self).redirect_urls(x)
            },
            final(self).applications_seq() == old(self).applications_seq(),
            final(self).application_list() == old(self).application_list(),
            final(self).consents_seq() == old(self).consents_seq(),
            final(self).consent_list() == old(self).consent_list(),
    {
        let i = self.redirect_urls_entry(id);
        let url = redirect_url.to_owned();
        match find_string(&self.application_redirect_urls[i].1, &url) {
            Some(k) => {
                let mut urls = copy_strings(&self.application_redirect_urls[i].1);
                let ghost before = urls@;
                urls.remove(k);
                proof {
                    lemma_first_index_unique(strs(before), redirect_url@, k as int);
                    assert(strs(urls@) =~= strs(before).remove(k as int));
                }
                self.set_redirect_urls(i, urls);
            },
            None => {},
        }
    }

    /// The number of applications that the account owns.
    fn count_owned(&self, account_id: AccountId) -> (r: usize)
        ensures
            r == self.owned_count(account_id),
    {
        let mut count: usize = 0;
        let mut i: usize = 0;
        while i < self.applications.len()
            invariant
                i <= self.applications.len(),
                count <= i,
                count == select(self.application_list().take(i as int), owned_by(account_id), same_application()).len(),
            decreases self.applications.len() - i,
        {
            proof {
                lemma_select_step(self.application_list(), owned_by(account_id), same_application(), i as int);
            }
            if self.applications[i].owner_account_id == account_id {
                count = count + 1;
            }
            i = i + 1;
        }
        assert(self.application_list().take(self.applications.len() as int) =~= self.application_list());
        count
    }

    /// The number of redirect URLs of the application.
    fn count_urls(&self, id: ApplicationId) -> (r: usize)
        requires
            self.wf(),
        ensures
            r == self.redirect_urls_or_empty(id).len(),
    {
        match self.find_redirect_urls(id) {
            Some(i) => self.application_redirect_urls[i].1.len(),
            None => 0,
        }
    }
}

/// What `insert` leaves: the application stored under its id.
pub open spec fn application_inserted(old: ApplicationRepoState, new: ApplicationRepoState, a: Application) -> bool {
    &&& forall|x: ApplicationId| #[trigger] new.application(x) == if x == a.application_id {
        Some(a)
    } else {
        old.application(x)
    }
    &&& new.redirect_urls_seq() == old.redirect_urls_seq()
    &&& new.consents_seq() == old.consents_seq()
    &&& new.consent_list() == old.consent_list()
}

/// What `delete` leaves: the application and its redirect URLs gone; of
/// the consents, those to this application kept and all others dropped.
pub open spec fn application_deleted(old: ApplicationRepoState, new: ApplicationRepoState, id: ApplicationId) -> bool {
    &&& forall|x: ApplicationId| #[trigger] new.application(x) == if x == id {
        None
    } else {
        old.application(x)
    }
    &&& forall|x: ApplicationId| #[trigger] new.redirect_urls(x) == if x == id {
        None
    } else {
        old.redirect_urls(x)
    }
    &&& forall|a: AccountId, x: ApplicationId| #[trigger] new.consent(a, x) == if x == id {
        old.consent(a, x)
    } else {
        None
    }
}

/// The consents and redirect URLs are those of `old`.
pub open spec fn same_links(old: ApplicationRepoState, new: ApplicationRepoState) -> bool {
    &&& new.redirect_urls_seq() == old.redirect_urls_seq()
    &&& new.consents_seq() == old.consents_seq()
    &&& new.consent_list() == old.consent_list()
}

/// The applications are those of `old`, in the same order.
pub open spec fn same_applications(old: ApplicationRepoState, new: ApplicationRepoState) -> bool {
    &&& new.applications_seq() == old.applications_seq()
    &&& new.application_list() == old.application_list()
}

/// What `insert_consent` leaves: the consent recorded, created at
/// `created_at`, unless one was there already.
pub open spec fn consent_inserted(
    old: ApplicationRepoState,
    new: ApplicationRepoState,
    account_id: AccountId,
    application_id: ApplicationId,
    created_at: i64,
) -> bool {
    &&& forall|a: AccountId, x: ApplicationId| #[trigger] new.consent(a, x) == if a == account_id && x == application_id
        && old.consent(a, x) is None {
        Some(fresh_consent(account_id, application_id, created_at))
    } else {
        old.consent(a, x)
    }
    &&& same_applications(old, new)
    &&& new.redirect_urls_seq() == old.redirect_urls_seq()
}

/// What `delete_consent` leaves: the consent gone.
pub open spec fn consent_deleted(old: ApplicationRepoState, new: ApplicationRepoState, account_id: AccountId, application_id: ApplicationId) -> bool {
    &&& forall|a: AccountId, x: ApplicationId| #[trigger] new.consent(a, x) == if a == account_id && x == application_id {
        None
    } else {
        old.consent(a, x)
    }
    &&& same_applications(old, new)
    &&& new.redirect_urls_seq() == old.redirect_urls_seq()
}

/// What `insert_redirect_url` leaves: the URL appended to the list, or the
/// list unchanged where it had the URL (`added` false); the application
/// has a list either way.
pub open spec fn redirect_url_inserted(
    old: ApplicationRepoState,
    new: ApplicationRepoState,
    id: ApplicationId,
    url: Seq<char>,
    added: bool,
) -> bool {
    &&& added == !old.redirect_urls_or_empty(id).contains(url)
    &&& forall|x: ApplicationId| #[trigger] new.redirect_urls(x) == if x == id {
        Some(if added {
            old.redirect_urls_or_empty(id).push(url)
        } else {
            old.redirect_urls_or_empty(id)
        })
    } else {
        old.redirect_urls(x)
    }
    &&& same_applications(old, new)
    &&& new.consents_seq() == old.consents_seq()
    &&& new.consent_list() == old.consent_list()
}

/// What `delete_redirect_url` leaves: the first occurrence of the URL
/// removed from the list; the application has a list either way.
pub open spec fn redirect_url_deleted(old: ApplicationRepoState, new: ApplicationRepoState, id: ApplicationId, url: Seq<char>) -> bool {
    &&& forall|x: ApplicationId| #[trigger] new.redirect_urls(x) == if x == id {
        Some(without_first(old.redirect_urls_or_empty(id), url))
    } else {
        old.redirect_urls(x)
    }
    &&& same_applications(old, new)
    &&& new.consents_seq() == old.consents_seq()
    &&& new.consent_list() == old.consent_list()
}

/// Mock application repository implementation.
pub struct MockApplicationRepoImpl {
    state: ApplicationRepoState,
}

/// A transaction on the application repository, working on a copy of it.
pub struct MockApplicationRepoTransactionImpl {
    state: ApplicationRepoState,
}

impl MockApplicationRepoImpl {
    /// The stored state.
    pub closed spec fn state(&self) -> ApplicationRepoState {
        self.state
    }

    /// Creates an empty repository.
    pub fn new() -> (r: Self)
        ensures
            r.state().wf(),
            forall|id: ApplicationId| r.state().application(id) is None && r.state().redirect_urls(id) is None,
            forall|a: AccountId, id: ApplicationId| r.state().consent(a, id) is None,
            r.state().application_list().len() == 0,
            r.state().consent_list().len() == 0,
    {
        MockApplicationRepoImpl { state: ApplicationRepoState::new() }
    }

    /// Create a new mock repository.
    pub fn boxed_new() -> (r: Box<Self>)
        ensures
            r.state().wf(),
            forall|id: ApplicationId| r.state().application(id) is None && r.state().redirect_urls(id) is None,
            forall|a: AccountId, id: ApplicationId| r.state().consent(a, id) is None,
            r.state().application_list().len() == 0,
            r.state().consent_list().len() == 0,
    {
        Box::new(Self::new())
    }

    /// Begins a new transactional unit, working on a copy of the repository.
    pub fn begin_transaction(&self) -> (r: MockApplicationRepoTransactionImpl)
        requires
            self.state().wf(),
        ensures
            r.state().wf(),
            r.state().same_contents(&self.state()),
    {
        MockApplicationRepoTransactionImpl { state: self.state.copy() }
    }

    /// The applications that the account owns.
    pub fn list_by_owner(&self, account_id: AccountId) -> (r: Vec<OwnedApplicationSummary>)
        ensures
            r@ == select(self.state().application_list(), owned_by(account_id), summary_of()),
    {
        self.state.list_by_owner(account_id)
    }

    /// The redirect URLs of the application; none if it has no list.
    pub fn list_redirect_urls(&self, application_id: ApplicationId) -> (r: Vec<String>)
        requires
            self.state().wf(),
        ensures
            strs(r@) == self.state().redirect_urls_or_empty(application_id),
    {
        self.state.list_redirect_urls(application_id)
    }

    /// The consents of the account to applications after
    /// `after_application_id`, by ascending application id, at most a page.
    pub fn list_consents(&self, account_id: AccountId, after_application_id: Option<ApplicationId>) -> (r: Vec<OwnedApplicationAccountConsent>)
        requires
            self.state().wf(),
            self.state().listed_applications_exist(account_id, after_application_id),
        ensures
            self.state().consent_page(account_id, after_application_id, r@),
    {
        self.state.list_consents(account_id, after_application_id)
    }

    /// Whether the account owns the application.
    pub fn is_owned_by(&self, application_id: ApplicationId, account_id: AccountId) -> (r: bool)
        requires
            self.state().wf(),
        ensures
            r == (self.state().application(application_id) matches Some(a) && a.owner_account_id == account_id),
    {
        self.state.is_owned_by(application_id, account_id)
    }

    /// Whether the account has authorized the application.
    pub fn consent_exists(&self, account_id: AccountId, application_id: ApplicationId) -> (r: bool)
        requires
            self.state().wf(),
        ensures
            r == (self.state().consent(account_id, application_id) is Some),
    {
        self.state.consent_exists(account_id, application_id)
    }
}

impl MockApplicationRepoTransactionImpl {
    /// The working copy.
    pub closed spec fn state(&self) -> ApplicationRepoState {
        self.state
    }

    /// Commits the changes: the repository takes the state of the
    /// transaction.
    pub fn commit(self, repo: &mut MockApplicationRepoImpl) -> (r: RepoResult<()>)
        ensures
            r is Ok,
            final(repo).state() == self.state(),
    {
        repo.state = self.state;
        Ok(())
    }

    /// Locks the application for the rest of the transaction. The mock
    /// implementation already locks the entire repository.
    pub fn lock(&mut self, _application_id: ApplicationId) -> (r: RepoResult<()>)
        ensures
            r is Ok,
            final(self).state() == old(self).state(),
    {
        Ok(())
    }

    /// Locks the account for the rest of the transaction. The mock
    /// implementation already locks the entire repository.
    pub fn lock_account(&mut self, _account_id: AccountId) -> (r: RepoResult<()>)
        ensures
            r is Ok,
            final(self).state() == old(self).state(),
    {
        Ok(())
    }

    /// Inserts the application, replacing one with the same id.
    pub fn insert(&mut self, application_entity: Application) -> (r: RepoResult<()>)
        requires
            old(self).state().wf(),
        ensures
            r is Ok,
            final(self).state().wf(),
            application_inserted(old(self).state(), final(self).state(), application_entity),
    {
        self.state.put_application(application_entity);
        Ok(())
    }

    /// Deletes the application and its redirect URLs. Of the consents, it
    /// keeps those to this application and drops all others.
    pub fn delete(&mut self, application_id: ApplicationId) -> (r: RepoResult<()>)
        requires
            old(self).state().wf(),
        ensures
            r is Ok,
            final(self).state().wf(),
            application_deleted(old(self).state(), final(self).state(), application_id),
    {
        let ghost s0 = self.state;
        self.state.remove_application(application_id);
        let ghost s1 = self.state;
        self.state.remove_redirect_urls(application_id);
        let ghost s2 = self.state;
        self.state.retain_consents_of(application_id);
        proof {
            assert forall|x: ApplicationId| #[trigger] self.state.application(x) == s1.application(x) by {}
            assert forall|x: ApplicationId| #[trigger] s1.redirect_urls(x) == s0.redirect_urls(x) by {}
            assert forall|x: ApplicationId| #[trigger] self.state.redirect_urls(x) == s2.redirect_urls(x) by {}
            assert forall|a: AccountId, x: ApplicationId| #[trigger] s2.consent(a, x) == s0.consent(a, x) by {}
        }
        Ok(())
    }

    /// Replaces the client secret hash of the application, if it exists.
    pub fn set_client_secret_hash(&mut self, application_id: ApplicationId, client_secret_hash: &[u8; 32]) -> (r: RepoResult<()>)
        requires
            old(self).state().wf(),
        ensures
            r is Ok,
            final(self).state().wf(),
            updated_application(old(self).state(), final(self).state(), application_id,
                |a: Application, b: Application| b == with_secret_hash(a, *client_secret_hash)),
            same_links(old(self).state(), final(self).state()),
    {
        self.state.rehash_application(application_id, *client_secret_hash);
        Ok(())
    }

    /// Renames the application, if it exists.
    pub fn set_name(&mut self, application_id: ApplicationId, name: &str) -> (r: RepoResult<()>)
        requires
            old(self).state().wf(),
        ensures
            r is Ok,
            final(self).state().wf(),
            updated_application(old(self).state(), final(self).state(), application_id, renamed(name@)),
            same_links(old(self).state(), final(self).state()),
    {
        self.state.rename_application(application_id, name);
        Ok(())
    }

    /// Records that the account authorized the application, at
    /// `created_at`. An existing consent is left as it is.
    pub fn insert_consent_at(&mut self, account_id: AccountId, application_id: ApplicationId, created_at: i64) -> (r: RepoResult<()>)
        requires
            old(self).state().wf(),
        ensures
            r is Ok,
            final(self).state().wf(),
            consent_inserted(old(self).state(), final(self).state(), account_id, application_id, created_at),
    {
        self.state.put_consent(account_id, application_id, created_at);
        Ok(())
    }

    /// Records that the account authorized the application, now. An
    /// existing consent is left as it is.
    pub fn insert_consent(&mut self, account_id: AccountId, application_id: ApplicationId) -> (r: RepoResult<()>)
        requires
            old(self).state().wf(),
        ensures
            r is Ok,
            final(self).state().wf(),
            exists|now: i64| consent_inserted(old(self).state(), final(self).state(), account_id, application_id, now),
    {
        let now = now_micros();
        self.insert_consent_at(account_id, application_id, now)
    }

    /// Withdraws the consent of the account to the application.
    pub fn delete_consent(&mut self, account_id: AccountId, application_id: ApplicationId) -> (r: RepoResult<()>)
        requires
            old(self).state().wf(),
        ensures
            r is Ok,
            final(self).state().wf(),
            consent_deleted(old(self).state(), final(self).state(), account_id, application_id),
    {
        self.state.remove_consent(account_id, application_id);
        Ok(())
    }

    /// Adds a redirect URL to the application. Fails if the application
    /// already has it.
    pub fn insert_redirect_url(&mut self, application_id: ApplicationId, redirect_url: &str) -> (r: RepoResult<()>)
        requires
            old(self).state().wf(),
        ensures
            final(self).state().wf(),
            redirect_url_inserted(old(self).state(), final(self).state(), application_id, redirect_url@, r is Ok),
            r matches Err(e) ==> e == RepoError::Internal("redirect url exists in the application"),
    {
        if self.state.add_redirect_url(application_id, redirect_url) {
            Ok(())
        } else {
            Err(RepoError::Internal("redirect url exists in the application"))
        }
    }

    /// Removes a redirect URL from the application, if it has it.
    pub fn delete_redirect_url(&mut self, application_id: ApplicationId, redirect_url: &str) -> (r: RepoResult<()>)
        requires
            old(self).state().wf(),
        ensures
            r is Ok,
            final(self).state().wf(),
            redirect_url_deleted(old(self).state(), final(self).state(), application_id, redirect_url@),
    {
        self.state.drop_redirect_url(application_id, redirect_url);
        Ok(())
    }

    /// The number of applications that the account owns.
    pub fn count_by_owner(&mut self, account_id: AccountId) -> (r: RepoResult<usize>)
        ensures
            r == Ok::<usize, RepoError>(old(self).state().owned_count(account_id) as usize),
            final(self).state() == old(self).state(),
    {
        Ok(self.state.count_owned(account_id))
    }

    /// The number of redirect URLs of the application.
    pub fn count_redirect_urls(&mut self, application_id: ApplicationId) -> (r: RepoResult<usize>)
        requires
            old(self).state().wf(),
        ensures
            r == Ok::<usize, RepoError>(old(self).state().redirect_urls_or_empty(application_id).len() as usize),
            final(self).state() == old(self).state(),
    {
        Ok(self.state.count_urls(application_id))
    }
}

/// Once `insert_consent` has run, the consent exists; a consent that
/// existed before keeps its creation time.
pub proof fn law_consent_insert_then_exists(
    old: ApplicationRepoState,
    new: ApplicationRepoState,
    account_id: AccountId,
    application_id: ApplicationId,
    created_at: i64,
)
    requires
        consent_inserted(old, new, account_id, application_id, created_at),
    ensures
        new.consent(account_id, application_id) is Some,
        old.consent(account_id, application_id) is Some ==> new.consent(account_id, application_id) == old.consent(
            account_id,
            application_id,
        ),
{
    assert(new.consent(account_id, application_id) == new.consent(account_id, application_id));
}

/// Once `delete_consent` has run, the consent does not exist.
pub proof fn law_consent_delete_then_absent(
    old: ApplicationRepoState,
    new: ApplicationRepoState,
    account_id: AccountId,
    application_id: ApplicationId,
)
    requires
        consent_deleted(old, new, account_id, application_id),
    ensures
        new.consent(account_id, application_id) is None,
{
    assert(new.consent(account_id, application_id) == new.consent(account_id, application_id));
}

/// After `insert_redirect_url`, whether it added the URL or refused it as
/// a duplicate, the application lists the URL.
pub proof fn law_inserted_redirect_url_is_listed(
    old: ApplicationRepoState,
    new: ApplicationRepoState,
    id: ApplicationId,
    url: Seq<char>,
    added: bool,
)
    requires
        redirect_url_inserted(old, new, id, url, added),
    ensures
        new.redirect_urls_or_empty(id).contains(url),
{
    assert(new.redirect_urls(id) == new.redirect_urls(id));
    let l = old.redirect_urls_or_empty(id);
    if added {
        assert(l.push(url)[l.len() as int] == url);
    }
}

/// `insert_redirect_url` never lists a URL twice for one application.
pub proof fn law_redirect_urls_stay_distinct(
    old: ApplicationRepoState,
    new: ApplicationRepoState,
    id: ApplicationId,
    url: Seq<char>,
    added: bool,
)
    requires
        redirect_url_inserted(old, new, id, url, added),
        old.redirect_urls_or_empty(id).no_duplicates(),
    ensures
        new.redirect_urls_or_empty(id).no_duplicates(),
{
    assert(new.redirect_urls(id) == new.redirect_urls(id));
    let l = old.redirect_urls_or_empty(id);
    if added {
        let n = l.push(url);
        assert forall|i: int, j: int| 0 <= i < n.len() && 0 <= j < n.len() && i != j implies n[i] != n[j] by {
            if i == l.len() {
                assert(n[j] == l[j]);
            } else if j == l.len() {
                assert(n[i] == l[i]);
            } else {
                assert(n[i] == l[i] && n[j] == l[j]);
            }
        }
    }
}

/// Adding a redirect URL that the application did not have and then
/// removing it gives back the list the application had.
pub proof fn law_redirect_url_insert_then_delete(
    s0: ApplicationRepoState,
    s1: ApplicationRepoState,
    s2: ApplicationRepoState,
    id: ApplicationId,
    url: Seq<char>,
)
    requires
        redirect_url_inserted(s0, s1, id, url, true),
        redirect_url_deleted(s1, s2, id, url),
    ensures
        s2.redirect_urls_or_empty(id) == s0.redirect_urls_or_empty(id),
{
    assert(s1.redirect_urls(id) == s1.redirect_urls(id));
    assert(s2.redirect_urls(id) == s2.redirect_urls(id));
    let l = s0.redirect_urls_or_empty(id);
    let n = l.push(url);
    assert(is_first_index(n, url, l.len() as int)) by {
        assert forall|j: int| 0 <= j < l.len() implies n[j] != url by {
            assert(n[j] == l[j]);
            if l[j] == url {
                assert(l.contains(url));
            }
        }
    }
    lemma_first_index_unique(n, url, l.len() as int);
    assert(n.remove(l.len() as int) =~= l);
}

} // verus!
