//! Token revocation state.
//!
//! Three tables say which tokens are revoked: single tokens by fingerprint,
//! and all tokens of an account (optionally of one scope kind) issued up to a
//! cutoff instant. Entries expire: each recording returns the cleanup task
//! that the caller runs once the given delay has passed.

use vstd::prelude::*;
use crate::clock::now_micros;
use crate::ids::AccountId;
use crate::keyed::{
    has_key, keys_unique, lemma_lookup_index, lemma_lookup_none, lemma_lookup_push,
    lemma_lookup_remove, lemma_lookup_update, lemma_unique_push, lookup,
};
use crate::token::{DecodedToken, ScopeKind};

verus! {

/// A cleanup that forgets a revocation entry once no token it covers can
/// still be valid.
#[derive(Debug)]
pub enum TokenCleanup {
    /// Forget the revoked fingerprint.
    ForgetFingerprint { fingerprint: Vec<u8> },
    /// Forget the scope cutoff, if it is still `cutoff`.
    ForgetScopeCutoff { account_id: AccountId, scope: ScopeKind, cutoff: i64 },
    /// Forget the account cutoff, if it is still `cutoff`.
    ForgetAccountCutoff { account_id: AccountId, cutoff: i64 },
}

/// A cleanup to run after `after_ms` milliseconds.
#[derive(Debug)]
pub struct ScheduledTokenCleanup {
    pub after_ms: u64,
    pub task: TokenCleanup,
}

/// Mock token repo implementation.
pub struct MockTokenRepoImpl {
    fingerprint_revocations: Vec<Vec<u8>>,
    scope_revocations: Vec<((AccountId, ScopeKind), i64)>,
    account_revocations: Vec<(AccountId, i64)>,
}

/// The cutoff after a revocation at `now` of tokens whose cutoff was `prev`.
pub open spec fn raised_cutoff(now: i64, prev: Option<i64>) -> i64 {
    match prev {
        Some(c) => if now > c {
            now
        } else {
            c
        },
        None => now,
    }
}

/// Tokens issued at or before the cutoff `c` are revoked.
pub open spec fn cutoff_covers(c: Option<i64>, issued_at: i64) -> bool {
    match c {
        Some(t) => issued_at <= t,
        None => false,
    }
}

fn bytes_eq(a: &Vec<u8>, b: &Vec<u8>) -> (r: bool)
    ensures
        r == (a@ == b@),
{
    if a.len() != b.len() {
        return false;
    }
    let mut i: usize = 0;
    while i < a.len()
        invariant
            i <= a.len(),
            a.len() == b.len(),
            forall|j: int| 0 <= j < i ==> a@[j] == b@[j],
        decreases a.len() - i,
    {
        if a[i] != b[i] {
            return false;
        }
        i = i + 1;
    }
    assert(a@ =~= b@);
    true
}

fn copy_bytes(a: &Vec<u8>) -> (r: Vec<u8>)
    ensures
        r@ == a@,
{
    let mut r: Vec<u8> = Vec::new();
    let mut i: usize = 0;
    while i < a.len()
        invariant
            i <= a.len(),
            r@ == a@.take(i as int),
        decreases a.len() - i,
    {
        r.push(a[i]);
        assert(a@.take(i + 1) =~= a@.take(i as int).push(a@[i as int]));
        i = i + 1;
    }
    assert(a@.take(a.len() as int) =~= a@);
    r
}

impl MockTokenRepoImpl {
    /// The revoked fingerprints, in insertion order.
    pub closed spec fn fingerprints(&self) -> Seq<Seq<u8>> {
        self.fingerprint_revocations@.map_values(|v: Vec<u8>| v@)
    }

    /// The table invariant: no fingerprint twice, no key twice.
    pub closed spec fn wf(&self) -> bool {
        &&& forall|i: int, j: int|
            0 <= i < j < self.fingerprints().len() ==> self.fingerprints()[i]
                != self.fingerprints()[j]
        &&& keys_unique(self.scope_revocations@)
        &&& keys_unique(self.account_revocations@)
    }

    /// The token with this fingerprint is revoked.
    pub closed spec fn fingerprint_revoked(&self, f: Seq<u8>) -> bool {
        self.fingerprints().contains(f)
    }

    /// Tokens of `a` with scope kind `k` issued up to this instant are revoked.
    pub closed spec fn scope_cutoff(&self, a: AccountId, k: ScopeKind) -> Option<i64> {
        lookup(self.scope_revocations@, (a, k))
    }

    /// Tokens of `a` issued up to this instant are revoked.
    pub closed spec fn account_cutoff(&self, a: AccountId) -> Option<i64> {
        lookup(self.account_revocations@, a)
    }

    /// `t` is revoked by its scope cutoff.
    pub open spec fn revoked_by_scope(&self, t: DecodedToken) -> bool {
        cutoff_covers(self.scope_cutoff(t.id, t.scope.spec_kind()), t.issued_at)
    }

    /// `t` is revoked by its account cutoff.
    pub open spec fn revoked_by_account(&self, t: DecodedToken) -> bool {
        cutoff_covers(self.account_cutoff(t.id), t.issued_at)
    }

    /// `t` is revoked, by fingerprint, scope or account.
    pub open spec fn revoked(&self, t: DecodedToken) -> bool {
        self.fingerprint_revoked(t.fingerprint@) || self.revoked_by_scope(t)
            || self.revoked_by_account(t)
    }

    /// `self` and `other` hold the same fingerprints.
    pub open spec fn same_fingerprints(&self, other: Self) -> bool {
        forall|f: Seq<u8>| #[trigger] self.fingerprint_revoked(f) == other.fingerprint_revoked(f)
    }

    /// `self` and `other` hold the same scope cutoffs.
    pub open spec fn same_scope_cutoffs(&self, other: Self) -> bool {
        forall|a: AccountId, k: ScopeKind| #[trigger]
            self.scope_cutoff(a, k) == other.scope_cutoff(a, k)
    }

    /// `self` and `other` hold the same account cutoffs.
    pub open spec fn same_account_cutoffs(&self, other: Self) -> bool {
        forall|a: AccountId| #[trigger] self.account_cutoff(a) == other.account_cutoff(a)
    }

    /// Creates an empty revocation state.
    pub fn new() -> (r: Self)
        ensures
            r.wf(),
            forall|f: Seq<u8>| !r.fingerprint_revoked(f),
            forall|a: AccountId, k: ScopeKind| r.scope_cutoff(a, k) is None,
            forall|a: AccountId| r.account_cutoff(a) is None,
    {
        MockTokenRepoImpl {
            fingerprint_revocations: Vec::new(),
            scope_revocations: Vec::new(),
            account_revocations: Vec::new(),
        }
    }

    /// Creates a new mock repository.
    pub fn boxed_new() -> (r: Box<Self>)
        ensures
            r.wf(),
            forall|f: Seq<u8>| !r.fingerprint_revoked(f),
            forall|a: AccountId, k: ScopeKind| r.scope_cutoff(a, k) is None,
            forall|a: AccountId| r.account_cutoff(a) is None,
    {
        Box::new(Self::new())
    }

    fn find_fingerprint(&self, f: &Vec<u8>) -> (r: Option<usize>)
        ensures
            match r {
                Some(i) => i < self.fingerprints().len() && self.fingerprints()[i as int] == f@,
                None => !self.fingerprints().contains(f@),
            },
    {
        let mut i: usize = 0;
        while i < self.fingerprint_revocations.len()
            invariant
                i <= self.fingerprint_revocations.len(),
                forall|j: int| 0 <= j < i ==> self.fingerprints()[j] != f@,
            decreases self.fingerprint_revocations.len() - i,
        {
            if bytes_eq(&self.fingerprint_revocations[i], f) {
                return Some(i);
            }
            i = i + 1;
        }
        None
    }

    fn find_scope(&self, key: (AccountId, ScopeKind)) -> (r: Option<usize>)
        ensures
            match r {
                Some(i) => i < self.scope_revocations@.len() && self.scope_revocations@[i as int].0
                    == key,
                None => !has_key(self.scope_revocations@, key),
            },
    {
        let mut i: usize = 0;
        while i < self.scope_revocations.len()
            invariant
                i <= self.scope_revocations.len(),
                forall|j: int| 0 <= j < i ==> self.scope_revocations@[j].0 != key,
            decreases self.scope_revocations.len() - i,
        {
            let k = self.scope_revocations[i].0;
            if k.0 == key.0 && k.1 == key.1 {
                return Some(i);
            }
            i = i + 1;
        }
        None
    }

    fn find_account(&self, key: AccountId) -> (r: Option<usize>)
        ensures
            match r {
                Some(i) => i < self.account_revocations@.len() && self.account_revocations@[i as int].0
                    == key,
                None => !has_key(self.account_revocations@, key),
            },
    {
        let mut i: usize = 0;
        while i < self.account_revocations.len()
            invariant
                i <= self.account_revocations.len(),
                forall|j: int| 0 <= j < i ==> self.account_revocations@[j].0 != key,
            decreases self.account_revocations.len() - i,
        {
            if self.account_revocations[i].0 == key {
                return Some(i);
            }
            i = i + 1;
        }
        None
    }

    /// Whether the fingerprint is revoked.
    pub fn check_fingerprint_revocation(&self, token: &DecodedToken) -> (r: bool)
        ensures
            r == self.fingerprint_revoked(token.fingerprint@),
    {
        self.find_fingerprint(&token.fingerprint).is_some()
    }

    /// Whether the token is revoked by its scope cutoff.
    pub fn check_scope_revocation(&self, token: &DecodedToken) -> (r: bool)
        requires
            self.wf(),
        ensures
            r == self.revoked_by_scope(*token),
    {
        let key = (token.id, token.scope.scope_kind());
        match self.find_scope(key) {
            Some(i) => {
                proof {
                    lemma_lookup_index(self.scope_revocations@, i as int);
                }
                token.issued_at <= self.scope_revocations[i].1
            },
            None => {
                proof {
                    lemma_lookup_none(self.scope_revocations@, key);
                }
                false
            },
        }
    }

    /// Whether the token is revoked by its account cutoff.
    pub fn check_account_revocation(&self, token: &DecodedToken) -> (r: bool)
        requires
            self.wf(),
        ensures
            r == self.revoked_by_account(*token),
    {
        match self.find_account(token.id) {
            Some(i) => {
                proof {
                    lemma_lookup_index(self.account_revocations@, i as int);
                }
                token.issued_at <= self.account_revocations[i].1
            },
            None => {
                proof {
                    lemma_lookup_none(self.account_revocations@, token.id);
                }
                false
            },
        }
    }

    /// Whether the token is revoked in any way.
    pub fn is_revoked(&self, token: &DecodedToken) -> (r: bool)
        requires
            self.wf(),
        ensures
            r == self.revoked(*token),
    {
        self.check_fingerprint_revocation(token) || self.check_scope_revocation(token)
            || self.check_account_revocation(token)
    }

    /// Raises the cutoff of `key` to `now`, unless it is later already.
    fn update_scope_cutoff(&mut self, key: (AccountId, ScopeKind), now: i64, expiration_ms: u64) -> (r: (
        Option<i64>,
        ScheduledTokenCleanup,
    ))
        requires
            old(self).wf(),
        ensures
            final(self).wf(),
            r.0 == old(self).scope_cutoff(key.0, key.1),
            final(self).scope_cutoff(key.0, key.1) == Some(raised_cutoff(now, r.0)),
            forall|a: AccountId, k: ScopeKind|
                (a, k) != key ==> #[trigger] final(self).scope_cutoff(a, k) == old(self).scope_cutoff(a, k),
            final(self).same_account_cutoffs(*old(self)),
            final(self).same_fingerprints(*old(self)),
            r.1.after_ms == expiration_ms,
            r.1.task == (TokenCleanup::ForgetScopeCutoff {
                account_id: key.0,
                scope: key.1,
                cutoff: raised_cutoff(now, r.0),
            }),
    {
        let ghost s = self.scope_revocations@;
        match self.find_scope(key) {
            Some(i) => {
                let c = self.scope_revocations[i].1;
                let nc = if now > c {
                    now
                } else {
                    c
                };
                self.scope_revocations.set(i, (key, nc));
                proof {
                    lemma_lookup_index(s, i as int);
                    assert forall|q: (AccountId, ScopeKind)| #[trigger]
                        lookup(self.scope_revocations@, q) == if q == key {
                            Some(nc)
                        } else {
                            lookup(s, q)
                        } by {
                        lemma_lookup_update(s, i as int, nc, q);
                    }
                    lemma_lookup_update(s, i as int, nc, key);
                    assert(self.fingerprints() == old(self).fingerprints());
                }
                (
                    Some(c),
                    ScheduledTokenCleanup {
                        after_ms: expiration_ms,
                        task: TokenCleanup::ForgetScopeCutoff { account_id: key.0, scope: key.1, cutoff: nc },
                    },
                )
            },
            None => {
                self.scope_revocations.push((key, now));
                proof {
                    lemma_lookup_none(s, key);
                    lemma_unique_push(s, key, now);
                    assert forall|q: (AccountId, ScopeKind)| #[trigger]
                        lookup(self.scope_revocations@, q) == if q == key {
                            Some(now)
                        } else {
                            lookup(s, q)
                        } by {
                        lemma_lookup_push(s, key, now, q);
                    }
                    assert(self.fingerprints() == old(self).fingerprints());
                }
                (
                    None,
                    ScheduledTokenCleanup {
                        after_ms: expiration_ms,
                        task: TokenCleanup::ForgetScopeCutoff { account_id: key.0, scope: key.1, cutoff: now },
                    },
                )
            },
        }
    }

    /// Raises the cutoff of the account to `now`, unless it is later already.
    fn update_account_cutoff(&mut self, key: AccountId, now: i64, expiration_ms: u64) -> (r: (
        Option<i64>,
        ScheduledTokenCleanup,
    ))
        requires
            old(self).wf(),
        ensures
            final(self).wf(),
            r.0 == old(self).account_cutoff(key),
            final(self).account_cutoff(key) == Some(raised_cutoff(now, r.0)),
            forall|a: AccountId|
                a != key ==> #[trigger] final(self).account_cutoff(a) == old(self).account_cutoff(a),
            final(self).same_scope_cutoffs(*old(self)),
            final(self).same_fingerprints(*old(self)),
            r.1.after_ms == expiration_ms,
            r.1.task == (TokenCleanup::ForgetAccountCutoff {
                account_id: key,
                cutoff: raised_cutoff(now, r.0),
            }),
    {
        let ghost s = self.account_revocations@;
        match self.find_account(key) {
            Some(i) => {
                let c = self.account_revocations[i].1;
                let nc = if now > c {
                    now
                } else {
                    c
                };
                self.account_revocations.set(i, (key, nc));
                proof {
                    lemma_lookup_index(s, i as int);
                    assert forall|q: AccountId| #[trigger]
                        lookup(self.account_revocations@, q) == if q == key {
                            Some(nc)
                        } else {
                            lookup(s, q)
                        } by {
                        lemma_lookup_update(s, i as int, nc, q);
                    }
                    lemma_lookup_update(s, i as int, nc, key);
                    assert(self.fingerprints() == old(self).fingerprints());
                }
                (
                    Some(c),
                    ScheduledTokenCleanup {
                        after_ms: expiration_ms,
                        task: TokenCleanup::ForgetAccountCutoff { account_id: key, cutoff: nc },
                    },
                )
            },
            None => {
                self.account_revocations.push((key, now));
                proof {
                    lemma_lookup_none(s, key);
                    lemma_unique_push(s, key, now);
                    assert forall|q: AccountId| #[trigger]
                        lookup(self.account_revocations@, q) == if q == key {
                            Some(now)
                        } else {
                            lookup(s, q)
                        } by {
                        lemma_lookup_push(s, key, now, q);
                    }
                    assert(self.fingerprints() == old(self).fingerprints());
                }
                (
                    None,
                    ScheduledTokenCleanup {
                        after_ms: expiration_ms,
                        task: TokenCleanup::ForgetAccountCutoff { account_id: key, cutoff: now },
                    },
                )
            },
        }
    }

    /// What `check_and_revoke_token` does: reports whether `t` was revoked
    /// and, if it was not, revokes its fingerprint for `revoke_for_ms`.
    pub open spec fn check_and_revoke_token_post(
        old: Self,
        new: Self,
        t: DecodedToken,
        revoke_for_ms: u64,
        r: (bool, Option<ScheduledTokenCleanup>),
    ) -> bool {
        &&& new.wf()
        &&& r.0 == old.revoked(t)
        &&& if r.0 {
            new == old && r.1 is None
        } else {
            &&& new.same_scope_cutoffs(old)
            &&& new.same_account_cutoffs(old)
            &&& forall|f: Seq<u8>| #[trigger]
                new.fingerprint_revoked(f) == (old.fingerprint_revoked(f) || f == t.fingerprint@)
            &&& r.1 is Some
            &&& r.1->0.after_ms == revoke_for_ms
            &&& r.1->0.task is ForgetFingerprint
            &&& r.1->0.task->fingerprint@ == t.fingerprint@
        }
    }

    /// Atomically checks whether the token is revoked and revokes it.
    ///
    /// Returns true if the token had already been revoked; otherwise also the
    /// cleanup that forgets the fingerprint after `revoke_for_ms`.
    pub fn check_and_revoke_token(&mut self, token: &DecodedToken, revoke_for_ms: u64) -> (r: (
        bool,
        Option<ScheduledTokenCleanup>,
    ))
        requires
            old(self).wf(),
        ensures
            Self::check_and_revoke_token_post(*old(self), *final(self), *token, revoke_for_ms, r),
    {
        if self.check_account_revocation(token) || self.check_scope_revocation(token) {
            return (true, None);
        }
        if self.check_fingerprint_revocation(token) {
            return (true, None);
        }
        let ghost s = self.fingerprints();
        assert(s == old(self).fingerprints());
        self.fingerprint_revocations.push(copy_bytes(&token.fingerprint));
        proof {
            assert(self.fingerprints() =~= s.push(token.fingerprint@));
            assert forall|f: Seq<u8>| #[trigger]
                self.fingerprint_revoked(f) == (old(self).fingerprint_revoked(f) || f
                    == token.fingerprint@) by {
                if f == token.fingerprint@ {
                    assert(self.fingerprints()[s.len() as int] == f);
                }
                if self.fingerprints().contains(f) && f != token.fingerprint@ {
                    let i = choose|i: int| 0 <= i < self.fingerprints().len() && self.fingerprints()[i] == f;
                    assert(s[i] == f);
                }
                if s.contains(f) {
                    let i = choose|i: int| 0 <= i < s.len() && s[i] == f;
                    assert(self.fingerprints()[i] == f);
                }
            }
        }
        (
            false,
            Some(
                ScheduledTokenCleanup {
                    after_ms: revoke_for_ms,
                    task: TokenCleanup::ForgetFingerprint { fingerprint: copy_bytes(&token.fingerprint) },
                },
            ),
        )
    }

    /// What `check_and_revoke_account_tokens_with_scope` does at `now`:
    /// reports whether `t` was revoked and, if it was not, raises the cutoff
    /// of its account and scope kind to `now`.
    pub open spec fn revoke_with_scope_post(
        old: Self,
        new: Self,
        t: DecodedToken,
        now: i64,
        expiration_ms: u64,
        r: (bool, Option<ScheduledTokenCleanup>),
    ) -> bool {
        &&& new.wf()
        &&& r.0 == old.revoked(t)
        &&& if r.0 {
            new == old && r.1 is None
        } else {
            let k = t.scope.spec_kind();
            &&& new.scope_cutoff(t.id, k) == Some(raised_cutoff(now, old.scope_cutoff(t.id, k)))
            &&& forall|a: AccountId, k2: ScopeKind|
                (a, k2) != (t.id, k) ==> #[trigger] new.scope_cutoff(a, k2) == old.scope_cutoff(a, k2)
            &&& new.same_account_cutoffs(old)
            &&& new.same_fingerprints(old)
            &&& r.1 == Some(
                ScheduledTokenCleanup {
                    after_ms: expiration_ms,
                    task: TokenCleanup::ForgetScopeCutoff {
                        account_id: t.id,
                        scope: k,
                        cutoff: raised_cutoff(now, old.scope_cutoff(t.id, k)),
                    },
                },
            )
        }
    }

    /// `check_and_revoke_account_tokens_with_scope` at the instant `now`.
    pub fn check_and_revoke_account_tokens_with_scope_at(
        &mut self,
        token: &DecodedToken,
        now: i64,
        expiration_ms: u64,
    ) -> (r: (bool, Option<ScheduledTokenCleanup>))
        requires
            old(self).wf(),
        ensures
            Self::revoke_with_scope_post(*old(self), *final(self), *token, now, expiration_ms, r),
    {
        if self.check_account_revocation(token) || self.check_fingerprint_revocation(token) {
            return (true, None);
        }
        if self.check_scope_revocation(token) {
            return (true, None);
        }
        let (_, c) = self.update_scope_cutoff((token.id, token.scope.scope_kind()), now, expiration_ms);
        (false, Some(c))
    }

    /// Atomically checks whether the token is revoked and, if not, revokes
    /// every token of its account and scope kind issued up to now.
    ///
    /// Returns true if the token had already been revoked; otherwise also the
    /// cleanup that forgets the cutoff after `expiration_ms`.
    pub fn check_and_revoke_account_tokens_with_scope(&mut self, token: &DecodedToken, expiration_ms: u64) -> (r: (
        bool,
        Option<ScheduledTokenCleanup>,
    ))
        requires
            old(self).wf(),
        ensures
            exists|now: i64| Self::revoke_with_scope_post(*old(self), *final(self), *token, now, expiration_ms, r),
    {
        let now = now_micros();
        self.check_and_revoke_account_tokens_with_scope_at(token, now, expiration_ms)
    }

    /// What `check_and_revoke_account_tokens` does at `now`: reports whether
    /// `t` was revoked and, if it was not, raises the cutoff of its account
    /// to `now`.
    pub open spec fn revoke_account_post(
        old: Self,
        new: Self,
        t: DecodedToken,
        now: i64,
        expiration_ms: u64,
        r: (bool, Option<ScheduledTokenCleanup>),
    ) -> bool {
        &&& new.wf()
        &&& r.0 == old.revoked(t)
        &&& if r.0 {
            new == old && r.1 is None
        } else {
            &&& new.account_cutoff(t.id) == Some(raised_cutoff(now, old.account_cutoff(t.id)))
            &&& forall|a: AccountId|
                a != t.id ==> #[trigger] new.account_cutoff(a) == old.account_cutoff(a)
            &&& new.same_scope_cutoffs(old)
            &&& new.same_fingerprints(old)
            &&& r.1 == Some(
                ScheduledTokenCleanup {
                    after_ms: expiration_ms,
                    task: TokenCleanup::ForgetAccountCutoff {
                        account_id: t.id,
                        cutoff: raised_cutoff(now, old.account_cutoff(t.id)),
                    },
                },
            )
        }
    }

    /// `check_and_revoke_account_tokens` at the instant `now`.
    pub fn check_and_revoke_account_tokens_at(&mut self, token: &DecodedToken, now: i64, expiration_ms: u64) -> (r: (
        bool,
        Option<ScheduledTokenCleanup>,
    ))
        requires
            old(self).wf(),
        ensures
            Self::revoke_account_post(*old(self), *final(self), *token, now, expiration_ms, r),
    {
        if self.check_scope_revocation(token) || self.check_fingerprint_revocation(token) {
            return (true, None);
        }
        if self.check_account_revocation(token) {
            return (true, None);
        }
        let (_, c) = self.update_account_cutoff(token.id, now, expiration_ms);
        (false, Some(c))
    }

    /// Atomically checks whether the token is revoked and, if not, revokes
    /// every token of its account issued up to now.
    ///
    /// Returns true if the token had already been revoked; otherwise also the
    /// cleanup that forgets the cutoff after `expiration_ms`.
    pub fn check_and_revoke_account_tokens(&mut self, token: &DecodedToken, expiration_ms: u64) -> (r: (
        bool,
        Option<ScheduledTokenCleanup>,
    ))
        requires
            old(self).wf(),
        ensures
            exists|now: i64| Self::revoke_account_post(*old(self), *final(self), *token, now, expiration_ms, r),
    {
        let now = now_micros();
        self.check_and_revoke_account_tokens_at(token, now, expiration_ms)
    }

    /// What `revoke_account_tokens_with_scope` does at `now`.
    pub open spec fn scope_cutoff_raised(
        old: Self,
        new: Self,
        a: AccountId,
        k: ScopeKind,
        now: i64,
        expiration_ms: u64,
        r: (Option<i64>, ScheduledTokenCleanup),
    ) -> bool {
        &&& new.wf()
        &&& r.0 == old.scope_cutoff(a, k)
        &&& new.scope_cutoff(a, k) == Some(raised_cutoff(now, r.0))
        &&& forall|a2: AccountId, k2: ScopeKind|
            (a2, k2) != (a, k) ==> #[trigger] new.scope_cutoff(a2, k2) == old.scope_cutoff(a2, k2)
        &&& new.same_account_cutoffs(old)
        &&& new.same_fingerprints(old)
        &&& r.1 == (ScheduledTokenCleanup {
            after_ms: expiration_ms,
            task: TokenCleanup::ForgetScopeCutoff { account_id: a, scope: k, cutoff: raised_cutoff(now, r.0) },
        })
    }

    /// Revokes, at `now`, every token of the account with the scope's kind.
    pub fn revoke_account_tokens_with_scope_at(
        &mut self,
        account_id: AccountId,
        scope: &crate::token::TokenScope,
        now: i64,
        expiration_ms: u64,
    ) -> (r: (Option<i64>, ScheduledTokenCleanup))
        requires
            old(self).wf(),
        ensures
            Self::scope_cutoff_raised(*old(self), *final(self), account_id, scope.spec_kind(), now, expiration_ms, r),
    {
        self.update_scope_cutoff((account_id, scope.scope_kind()), now, expiration_ms)
    }

    /// Revokes every token of the account with the scope's kind issued up to
    /// now. Returns the previous cutoff, if any, and the cleanup to run after
    /// `expiration_ms`.
    pub fn revoke_account_tokens_with_scope(
        &mut self,
        account_id: AccountId,
        scope: &crate::token::TokenScope,
        expiration_ms: u64,
    ) -> (r: (Option<i64>, ScheduledTokenCleanup))
        requires
            old(self).wf(),
        ensures
            exists|now: i64|
                Self::scope_cutoff_raised(*old(self), *final(self), account_id, scope.spec_kind(), now, expiration_ms, r),
    {
        let now = now_micros();
        self.revoke_account_tokens_with_scope_at(account_id, scope, now, expiration_ms)
    }

    /// What `revoke_account_tokens` does at `now`.
    pub open spec fn account_cutoff_raised(
        old: Self,
        new: Self,
        a: AccountId,
        now: i64,
        expiration_ms: u64,
        r: (Option<i64>, ScheduledTokenCleanup),
    ) -> bool {
        &&& new.wf()
        &&& r.0 == old.account_cutoff(a)
        &&& new.account_cutoff(a) == Some(raised_cutoff(now, r.0))
        &&& forall|a2: AccountId| a2 != a ==> #[trigger] new.account_cutoff(a2) == old.account_cutoff(a2)
        &&& new.same_scope_cutoffs(old)
        &&& new.same_fingerprints(old)
        &&& r.1 == (ScheduledTokenCleanup {
            after_ms: expiration_ms,
            task: TokenCleanup::ForgetAccountCutoff { account_id: a, cutoff: raised_cutoff(now, r.0) },
        })
    }

    /// Revokes, at `now`, every token of the account.
    pub fn revoke_account_tokens_at(&mut self, account_id: AccountId, now: i64, expiration_ms: u64) -> (r: (
        Option<i64>,
        ScheduledTokenCleanup,
    ))
        requires
            old(self).wf(),
        ensures
            Self::account_cutoff_raised(*old(self), *final(self), account_id, now, expiration_ms, r),
    {
        self.update_account_cutoff(account_id, now, expiration_ms)
    }

    /// Revokes every token of the account issued up to now. Returns the
    /// previous cutoff, if any, and the cleanup to run after `expiration_ms`.
    pub fn revoke_account_tokens(&mut self, account_id: AccountId, expiration_ms: u64) -> (r: (
        Option<i64>,
        ScheduledTokenCleanup,
    ))
        requires
            old(self).wf(),
        ensures
            exists|now: i64| Self::account_cutoff_raised(*old(self), *final(self), account_id, now, expiration_ms, r),
    {
        let now = now_micros();
        self.revoke_account_tokens_at(account_id, now, expiration_ms)
    }

    /// What running a cleanup does.
    pub open spec fn cleanup_post(old: Self, new: Self, task: TokenCleanup) -> bool {
        &&& new.wf()
        &&& match task {
            TokenCleanup::ForgetFingerprint { fingerprint } => {
                &&& forall|f: Seq<u8>| #[trigger]
                    new.fingerprint_revoked(f) == (old.fingerprint_revoked(f) && f != fingerprint@)
                &&& new.same_scope_cutoffs(old)
                &&& new.same_account_cutoffs(old)
            },
            TokenCleanup::ForgetScopeCutoff { account_id, scope, cutoff } => {
                &&& forall|a: AccountId, k: ScopeKind| #[trigger]
                    new.scope_cutoff(a, k) == if (a, k) == (account_id, scope) && old.scope_cutoff(a, k)
                        == Some(cutoff) {
                        None
                    } else {
                        old.scope_cutoff(a, k)
                    }
                &&& new.same_fingerprints(old)
                &&& new.same_account_cutoffs(old)
            },
            TokenCleanup::ForgetAccountCutoff { account_id, cutoff } => {
                &&& forall|a: AccountId| #[trigger]
                    new.account_cutoff(a) == if a == account_id && old.account_cutoff(a) == Some(cutoff) {
                        None
                    } else {
                        old.account_cutoff(a)
                    }
                &&& new.same_fingerprints(old)
                &&& new.same_scope_cutoffs(old)
            },
        }
    }

    /// Runs a cleanup whose delay has passed.
    pub fn run_cleanup(&mut self, task: &TokenCleanup)
        requires
            old(self).wf(),
        ensures
            Self::cleanup_post(*old(self), *final(self), *task),
    {
        match task {
            TokenCleanup::ForgetFingerprint { fingerprint } => {
                let ghost s = self.fingerprints();
                match self.find_fingerprint(fingerprint) {
                    Some(i) => {
                        self.fingerprint_revocations.remove(i);
                        proof {
                            assert(self.fingerprints() =~= s.remove(i as int));
                            assert forall|f: Seq<u8>| #[trigger]
                                self.fingerprint_revoked(f) == (old(self).fingerprint_revoked(f) && f
                                    != fingerprint@) by {
                                if self.fingerprints().contains(f) {
                                    let j = choose|j: int| 0 <= j < self.fingerprints().len() && self.fingerprints()[j] == f;
                                    let j2 = if j < i { j } else { j + 1 };
                                    assert(s[j2] == f);
                                    assert(j2 != i);
                                }
                                if old(self).fingerprint_revoked(f) && f != fingerprint@ {
                                    let j = choose|j: int| 0 <= j < s.len() && s[j] == f;
                                    assert(j != i);
                                    let j2 = if j < i { j } else { j - 1 };
                                    assert(self.fingerprints()[j2] == f);
                                }
                            }
                            assert forall|a: int, b: int|
                                0 <= a < b < self.fingerprints().len() implies self.fingerprints()[a]
                                != self.fingerprints()[b] by {
                                let a2 = if a < i { a } else { a + 1 };
                                let b2 = if b < i { b } else { b + 1 };
                                assert(self.fingerprints()[a] == s[a2] && self.fingerprints()[b] == s[b2]);
                            }
                        }
                    },
                    None => {},
                }
            },
            TokenCleanup::ForgetScopeCutoff { account_id, scope, cutoff } => {
                let key = (*account_id, *scope);
                let ghost s = self.scope_revocations@;
                match self.find_scope(key) {
                    Some(i) => {
                        proof {
                            lemma_lookup_index(s, i as int);
                        }
                        if self.scope_revocations[i].1 == *cutoff {
                            self.scope_revocations.remove(i);
                            proof {
                                lemma_lookup_remove(s, i as int, key);
                                assert forall|a: AccountId, k: ScopeKind| #[trigger]
                                    self.scope_cutoff(a, k) == if (a, k) == key && old(self).scope_cutoff(a, k)
                                        == Some(*cutoff) {
                                        None
                                    } else {
                                        old(self).scope_cutoff(a, k)
                                    } by {
                                    lemma_lookup_remove(s, i as int, (a, k));
                                }
                                assert(self.fingerprints() == old(self).fingerprints());
                            }
                        }
                    },
                    None => {
                        proof {
                            lemma_lookup_none(s, key);
                        }
                    },
                }
            },
            TokenCleanup::ForgetAccountCutoff { account_id, cutoff } => {
                let key = *account_id;
                let ghost s = self.account_revocations@;
                match self.find_account(key) {
                    Some(i) => {
                        proof {
                            lemma_lookup_index(s, i as int);
                        }
                        if self.account_revocations[i].1 == *cutoff {
                            self.account_revocations.remove(i);
                            proof {
                                lemma_lookup_remove(s, i as int, key);
                                assert forall|a: AccountId| #[trigger]
                                    self.account_cutoff(a) == if a == key && old(self).account_cutoff(a)
                                        == Some(*cutoff) {
                                        None
                                    } else {
                                        old(self).account_cutoff(a)
                                    } by {
                                    lemma_lookup_remove(s, i as int, a);
                                }
                                assert(self.fingerprints() == old(self).fingerprints());
                            }
                        }
                    },
                    None => {
                        proof {
                            lemma_lookup_none(s, key);
                        }
                    },
                }
            },
        }
    }

    /// After `check_and_revoke_token`, whatever it answered, the token is
    /// revoked.
    pub proof fn law_checked_token_is_revoked(
        old: Self,
        new: Self,
        t: DecodedToken,
        revoke_for_ms: u64,
        r: (bool, Option<ScheduledTokenCleanup>),
    )
        requires
            Self::check_and_revoke_token_post(old, new, t, revoke_for_ms, r),
        ensures
            new.revoked(t),
    {
        if !r.0 {
            assert(new.fingerprint_revoked(t.fingerprint@));
        }
    }

    /// A token can be revoked once: a second `check_and_revoke_token` of the
    /// same token answers that it was revoked, and changes nothing.
    pub proof fn law_token_revoked_once(
        s0: Self,
        s1: Self,
        s2: Self,
        t: DecodedToken,
        ms1: u64,
        ms2: u64,
        r1: (bool, Option<ScheduledTokenCleanup>),
        r2: (bool, Option<ScheduledTokenCleanup>),
    )
        requires
            Self::check_and_revoke_token_post(s0, s1, t, ms1, r1),
            Self::check_and_revoke_token_post(s1, s2, t, ms2, r2),
        ensures
            r2.0,
            s2 == s1,
            r2.1 is None,
    {
        Self::law_checked_token_is_revoked(s0, s1, t, ms1, r1);
    }

    /// After revoking the tokens of an account at `now`, every token of that
    /// account issued at or before `now` is revoked.
    pub proof fn law_account_revocation_covers_earlier_tokens(
        old: Self,
        new: Self,
        a: AccountId,
        now: i64,
        expiration_ms: u64,
        r: (Option<i64>, ScheduledTokenCleanup),
        t: DecodedToken,
    )
        requires
            Self::account_cutoff_raised(old, new, a, now, expiration_ms, r),
            t.id == a,
            t.issued_at <= now,
        ensures
            new.revoked(t),
    {
    }

    /// After revoking the tokens of an account and scope kind at `now`, every
    /// such token issued at or before `now` is revoked.
    pub proof fn law_scope_revocation_covers_earlier_tokens(
        old: Self,
        new: Self,
        a: AccountId,
        k: ScopeKind,
        now: i64,
        expiration_ms: u64,
        r: (Option<i64>, ScheduledTokenCleanup),
        t: DecodedToken,
    )
        requires
            Self::scope_cutoff_raised(old, new, a, k, now, expiration_ms, r),
            t.id == a,
            t.scope.spec_kind() == k,
            t.issued_at <= now,
        ensures
            new.revoked(t),
    {
    }

    /// Revoking the tokens of one scope leaves every token of another scope
    /// variant exactly as revoked as it was.
    pub proof fn law_scope_revocation_spares_other_scopes(
        old: Self,
        new: Self,
        a: AccountId,
        scope: crate::token::TokenScope,
        now: i64,
        expiration_ms: u64,
        r: (Option<i64>, ScheduledTokenCleanup),
        t: DecodedToken,
    )
        requires
            Self::scope_cutoff_raised(old, new, a, scope.spec_kind(), now, expiration_ms, r),
            !crate::token::same_variant(t.scope, scope),
        ensures
            new.revoked(t) == old.revoked(t),
    {
        crate::token::law_scope_kinds_distinct(t.scope, scope);
        assert(new.scope_cutoff(t.id, t.scope.spec_kind()) == old.scope_cutoff(t.id, t.scope.spec_kind()));
        assert(new.fingerprint_revoked(t.fingerprint@) == old.fingerprint_revoked(t.fingerprint@));
        assert(new.account_cutoff(t.id) == old.account_cutoff(t.id));
    }

    /// A revocation never lowers a cutoff: the new one is at least `now` and
    /// at least the previous one.
    pub proof fn law_account_cutoff_never_lowers(
        old: Self,
        new: Self,
        a: AccountId,
        now: i64,
        expiration_ms: u64,
        r: (Option<i64>, ScheduledTokenCleanup),
    )
        requires
            Self::account_cutoff_raised(old, new, a, now, expiration_ms, r),
        ensures
            new.account_cutoff(a) matches Some(c) && c >= now && (old.account_cutoff(a) matches Some(p) ==> c >= p),
    {
    }

    /// A revocation never lowers a cutoff: the new one is at least `now` and
    /// at least the previous one.
    pub proof fn law_scope_cutoff_never_lowers(
        old: Self,
        new: Self,
        a: AccountId,
        k: ScopeKind,
        now: i64,
        expiration_ms: u64,
        r: (Option<i64>, ScheduledTokenCleanup),
    )
        requires
            Self::scope_cutoff_raised(old, new, a, k, now, expiration_ms, r),
        ensures
            new.scope_cutoff(a, k) matches Some(c) && c >= now && (old.scope_cutoff(a, k) matches Some(p) ==> c >= p),
    {
    }

    /// A cleanup scheduled for a cutoff that has since been raised leaves
    /// the raised cutoff in place.
    pub proof fn law_stale_account_cleanup_keeps_cutoff(old: Self, new: Self, a: AccountId, stale: i64)
        requires
            old.account_cutoff(a) is Some,
            old.account_cutoff(a) != Some(stale),
            Self::cleanup_post(old, new, TokenCleanup::ForgetAccountCutoff { account_id: a, cutoff: stale }),
        ensures
            new.account_cutoff(a) == old.account_cutoff(a),
    {
    }

    /// A cleanup scheduled for a cutoff that has since been raised leaves
    /// the raised cutoff in place.
    pub proof fn law_stale_scope_cleanup_keeps_cutoff(
        old: Self,
        new: Self,
        a: AccountId,
        k: ScopeKind,
        stale: i64,
    )
        requires
            old.scope_cutoff(a, k) is Some,
            old.scope_cutoff(a, k) != Some(stale),
            Self::cleanup_post(old, new, TokenCleanup::ForgetScopeCutoff { account_id: a, scope: k, cutoff: stale }),
        ensures
            new.scope_cutoff(a, k) == old.scope_cutoff(a, k),
    {
    }

    /// The cleanup of a fingerprint lifts the revocation of that very token,
    /// unless a cutoff covers it.
    pub proof fn law_fingerprint_cleanup_lifts_revocation(
        old: Self,
        new: Self,
        fingerprint: Vec<u8>,
        t: DecodedToken,
    )
        requires
            Self::cleanup_post(old, new, TokenCleanup::ForgetFingerprint { fingerprint }),
            t.fingerprint@ == fingerprint@,
            !old.revoked_by_scope(t),
            !old.revoked_by_account(t),
        ensures
            !new.revoked(t),
    {
        assert(new.scope_cutoff(t.id, t.scope.spec_kind()) == old.scope_cutoff(t.id, t.scope.spec_kind()));
        assert(new.account_cutoff(t.id) == old.account_cutoff(t.id));
        assert(!new.fingerprint_revoked(t.fingerprint@));
    }
}

} // verus!
