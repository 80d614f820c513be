//! E-mail rate limiting state.
//!
//! Sending an e-mail blocks the address and the requesting IP for a short
//! cooldown and consumes one unit of the quota of each; a quota is refilled
//! all at once some time after its first use. The timers are the caller's:
//! every change returns the cleanups to run once their delays have passed.

use vstd::prelude::*;
use crate::dto::repo::EmailLimitingResult;
use crate::keyed::{
    has_key, keys_unique, lemma_lookup_index, lemma_lookup_none, lemma_lookup_push,
    lemma_lookup_remove, lemma_lookup_update, lemma_unique_push, lookup,
};
use crate::net::IpAddress;
use crate::repo::rate_limits::{
    EMAIL_COOLDOWN_MS, EMAIL_QUOTA, EMAIL_QUOTA_REFILL_DURATION_MS, IP_COOLDOWN_MS, IP_QUOTA,
    IP_QUOTA_REFILL_DURATION_MS,
};

verus! {

/// A cleanup of the rate limiting state.
#[derive(Debug)]
pub enum EmailLimitCleanup {
    /// The address cooldown is over.
    UnblockEmail { email: String },
    /// The IP cooldown is over, if the IP is still blocked for `email`.
    UnblockIp { ip: IpAddress, email: String },
    /// The address quota is refilled, if it is still the one numbered `nonce`.
    RefillEmailQuota { email: String, nonce: u64 },
    /// The IP quota is refilled, if it is still the one numbered `nonce`.
    RefillIpQuota { ip: IpAddress, nonce: u64 },
}

/// A cleanup, with the addresses taken as character sequences.
pub ghost enum EmailLimitCleanupView {
    UnblockEmail(Seq<char>),
    UnblockIp(IpAddress, Seq<char>),
    RefillEmailQuota(Seq<char>, u64),
    RefillIpQuota(IpAddress, u64),
}

impl View for EmailLimitCleanup {
    type V = EmailLimitCleanupView;

    open spec fn view(&self) -> EmailLimitCleanupView {
        match self {
            EmailLimitCleanup::UnblockEmail { email } => EmailLimitCleanupView::UnblockEmail(email@),
            EmailLimitCleanup::UnblockIp { ip, email } => EmailLimitCleanupView::UnblockIp(*ip, email@),
            EmailLimitCleanup::RefillEmailQuota { email, nonce } => EmailLimitCleanupView::RefillEmailQuota(
                email@,
                *nonce,
            ),
            EmailLimitCleanup::RefillIpQuota { ip, nonce } => EmailLimitCleanupView::RefillIpQuota(*ip, *nonce),
        }
    }
}

/// A cleanup to run after `after_ms` milliseconds.
#[derive(Debug)]
pub struct ScheduledEmailLimitCleanup {
    pub after_ms: u64,
    pub task: EmailLimitCleanup,
}

impl View for ScheduledEmailLimitCleanup {
    type V = (u64, EmailLimitCleanupView);

    open spec fn view(&self) -> (u64, EmailLimitCleanupView) {
        (self.after_ms, self.task@)
    }
}

/// A quota `q` (used count, nonce) after one more use; a new quota is
/// numbered `nonce`.
pub open spec fn consumed(q: Option<(u64, u64)>, nonce: u64) -> (u64, u64) {
    match q {
        Some(p) => ((p.0 + 1) as u64, p.1),
        None => (1, nonce),
    }
}

/// An IP quota after one unit is given back: a quota of one is dropped.
pub open spec fn refunded(q: Option<(u64, u64)>) -> Option<(u64, u64)> {
    match q {
        Some(p) => if p.0 <= 1 {
            None
        } else {
            Some(((p.0 - 1) as u64, p.1))
        },
        None => None,
    }
}

/// Units used of a quota.
pub open spec fn used(q: Option<(u64, u64)>) -> int {
    match q {
        Some(p) => p.0 as int,
        None => 0,
    }
}

/// Mock email limiting repo implementation.
///
/// The mock implementation does not return real timeout values, instead it
/// returns the maximum.
pub struct MockEmailLimitingRepoImpl {
    block_email: Vec<String>,
    used_quota_email: Vec<(String, (u64, u64))>,
    block_ip: Vec<(IpAddress, String)>,
    used_quota_ip: Vec<(IpAddress, (u64, u64))>,
    quota_nonce: u64,
}

fn copy_string(s: &String) -> (r: String)
    ensures
        r@ == s@,
{
    s.clone()
}

impl MockEmailLimitingRepoImpl {
    closed spec fn blocked_seq(&self) -> Seq<Seq<char>> {
        self.block_email@.map_values(|s: String| s@)
    }

    closed spec fn email_quota_seq(&self) -> Seq<(Seq<char>, (u64, u64))> {
        self.used_quota_email@.map_values(|p: (String, (u64, u64))| (p.0@, p.1))
    }

    closed spec fn ip_block_seq(&self) -> Seq<(IpAddress, Seq<char>)> {
        self.block_ip@.map_values(|p: (IpAddress, String)| (p.0, p.1@))
    }

    /// The address is in its cooldown.
    pub closed spec fn email_blocked(&self, e: Seq<char>) -> bool {
        self.blocked_seq().contains(e)
    }

    /// The address that the IP is in cooldown for, if any.
    pub closed spec fn ip_block(&self, ip: IpAddress) -> Option<Seq<char>> {
        lookup(self.ip_block_seq(), ip)
    }

    /// Used quota of the address and the number of that quota.
    pub closed spec fn email_quota(&self, e: Seq<char>) -> Option<(u64, u64)> {
        lookup(self.email_quota_seq(), e)
    }

    /// Used quota of the IP and the number of that quota.
    pub closed spec fn ip_quota(&self, ip: IpAddress) -> Option<(u64, u64)> {
        lookup(self.used_quota_ip@, ip)
    }

    /// The number that the next new quota gets.
    pub closed spec fn nonce(&self) -> u64 {
        self.quota_nonce
    }

    /// The state invariant: no entry twice; every used quota is between one
    /// and its maximum; every quota number was handed out already.
    pub closed spec fn wf(&self) -> bool {
        &&& forall|i: int, j: int|
            0 <= i < j < self.blocked_seq().len() ==> self.blocked_seq()[i] != self.blocked_seq()[j]
        &&& keys_unique(self.email_quota_seq())
        &&& keys_unique(self.ip_block_seq())
        &&& keys_unique(self.used_quota_ip@)
        &&& forall|e: Seq<char>| #[trigger] self.email_quota(e) matches Some(q) ==> 1 <= q.0 <= EMAIL_QUOTA
            && q.1 < self.quota_nonce
        &&& forall|ip: IpAddress| #[trigger] self.ip_quota(ip) matches Some(q) ==> 1 <= q.0 <= IP_QUOTA
            && q.1 < self.quota_nonce
    }

    /// What a check for sending to `e` from `ip` answers.
    pub open spec fn limit_decision(&self, ip: IpAddress, e: Seq<char>) -> EmailLimitingResult {
        if self.ip_block(ip) is Some {
            EmailLimitingResult::IpLimited(IP_COOLDOWN_MS)
        } else if self.email_blocked(e) {
            EmailLimitingResult::EmailLimited(EMAIL_COOLDOWN_MS)
        } else if self.ip_quota(ip) matches Some(q) && q.0 >= IP_QUOTA {
            EmailLimitingResult::IpLimited(EMAIL_QUOTA_REFILL_DURATION_MS)
        } else if self.email_quota(e) matches Some(q) && q.0 >= EMAIL_QUOTA {
            EmailLimitingResult::EmailLimited(EMAIL_QUOTA_REFILL_DURATION_MS)
        } else {
            EmailLimitingResult::Allowed
        }
    }

    /// The quota number that the IP quota gets when sending to `e` creates
    /// it.
    pub open spec fn nonce_after_email(&self, e: Seq<char>) -> u64 {
        if self.email_quota(e) is None {
            (self.nonce() + 1) as u64
        } else {
            self.nonce()
        }
    }

    /// The cleanups that an allowed send to `e` from `ip` schedules.
    pub open spec fn allowed_cleanups(&self, ip: IpAddress, e: Seq<char>) -> Seq<(u64, EmailLimitCleanupView)> {
        seq![
            (EMAIL_COOLDOWN_MS, EmailLimitCleanupView::UnblockEmail(e)),
            (IP_COOLDOWN_MS, EmailLimitCleanupView::UnblockIp(ip, e)),
        ] + (if self.email_quota(e) is None {
            seq![(EMAIL_QUOTA_REFILL_DURATION_MS, EmailLimitCleanupView::RefillEmailQuota(e, self.nonce()))]
        } else {
            Seq::empty()
        }) + (if self.ip_quota(ip) is None {
            seq![(IP_QUOTA_REFILL_DURATION_MS, EmailLimitCleanupView::RefillIpQuota(ip, self.nonce_after_email(e)))]
        } else {
            Seq::empty()
        })
    }

    /// What `check_and_consume_quota` does.
    pub open spec fn consume_post(
        old: Self,
        new: Self,
        ip: IpAddress,
        e: Seq<char>,
        r: (EmailLimitingResult, Seq<(u64, EmailLimitCleanupView)>),
    ) -> bool {
        &&& new.wf()
        &&& r.0 == old.limit_decision(ip, e)
        &&& if r.0 != EmailLimitingResult::Allowed {
            new == old && r.1.len() == 0
        } else {
            &&& forall|x: Seq<char>| #[trigger] new.email_blocked(x) == (old.email_blocked(x) || x == e)
            &&& forall|i: IpAddress| #[trigger] new.ip_block(i) == if i == ip {
                Some(e)
            } else {
                old.ip_block(i)
            }
            &&& forall|x: Seq<char>| #[trigger] new.email_quota(x) == if x == e {
                Some(consumed(old.email_quota(e), old.nonce()))
            } else {
                old.email_quota(x)
            }
            &&& forall|i: IpAddress| #[trigger] new.ip_quota(i) == if i == ip {
                Some(consumed(old.ip_quota(ip), old.nonce_after_email(e)))
            } else {
                old.ip_quota(i)
            }
            &&& new.nonce() == if old.ip_quota(ip) is None {
                old.nonce_after_email(e) + 1
            } else {
                old.nonce_after_email(e) as int
            }
            &&& r.1 == old.allowed_cleanups(ip, e)
        }
    }

    /// Creates an empty state.
    pub fn new() -> (r: Self)
        ensures
            r.wf(),
            r.nonce() == 0,
            forall|x: Seq<char>| !r.email_blocked(x) && r.email_quota(x) is None,
            forall|i: IpAddress| r.ip_block(i) is None && r.ip_quota(i) is None,
    {
        let r = MockEmailLimitingRepoImpl {
            block_email: Vec::new(),
            used_quota_email: Vec::new(),
            block_ip: Vec::new(),
            used_quota_ip: Vec::new(),
            quota_nonce: 0,
        };
        assert(r.blocked_seq() =~= Seq::empty());
        assert(r.email_quota_seq() =~= Seq::empty());
        assert(r.ip_block_seq() =~= Seq::empty());
        r
    }

    /// Creates a new mock repository.
    pub fn boxed_new() -> (r: Box<Self>)
        ensures
            r.wf(),
            r.nonce() == 0,
            forall|x: Seq<char>| !r.email_blocked(x) && r.email_quota(x) is None,
            forall|i: IpAddress| r.ip_block(i) is None && r.ip_quota(i) is None,
    {
        Box::new(Self::new())
    }

    /// The number that the next new quota gets. A send can number two new
    /// quotas, so `check_and_consume_quota` needs it below `u64::MAX - 1`.
    pub fn quota_nonce(&self) -> (r: u64)
        ensures
            r == self.nonce(),
    {
        self.quota_nonce
    }

    fn find_blocked_email(&self, e: &String) -> (r: Option<usize>)
        ensures
            match r {
                Some(i) => i < self.blocked_seq().len() && self.blocked_seq()[i as int] == e@,
                None => !self.blocked_seq().contains(e@),
            },
    {
        let mut i: usize = 0;
        while i < self.block_email.len()
            invariant
                i <= self.block_email.len(),
                forall|j: int| 0 <= j < i ==> self.blocked_seq()[j] != e@,
            decreases self.block_email.len() - i,
        {
            if self.block_email[i].eq(e) {
                return Some(i);
            }
            i = i + 1;
        }
        None
    }

    fn find_email_quota(&self, e: &String) -> (r: Option<usize>)
        ensures
            match r {
                Some(i) => i < self.email_quota_seq().len() && self.email_quota_seq()[i as int].0 == e@,
                None => !has_key(self.email_quota_seq(), e@),
            },
    {
        let mut i: usize = 0;
        while i < self.used_quota_email.len()
            invariant
                i <= self.used_quota_email.len(),
                forall|j: int| 0 <= j < i ==> self.email_quota_seq()[j].0 != e@,
            decreases self.used_quota_email.len() - i,
        {
            if self.used_quota_email[i].0.eq(e) {
                return Some(i);
            }
            i = i + 1;
        }
        None
    }

    fn find_ip_block(&self, ip: IpAddress) -> (r: Option<usize>)
        ensures
            match r {
                Some(i) => i < self.ip_block_seq().len() && self.ip_block_seq()[i as int].0 == ip,
                None => !has_key(self.ip_block_seq(), ip),
            },
    {
        let mut i: usize = 0;
        while i < self.block_ip.len()
            invariant
                i <= self.block_ip.len(),
                forall|j: int| 0 <= j < i ==> self.ip_block_seq()[j].0 != ip,
            decreases self.block_ip.len() - i,
        {
            if self.block_ip[i].0 == ip {
                return Some(i);
            }
            i = i + 1;
        }
        None
    }

    fn find_ip_quota(&self, ip: IpAddress) -> (r: Option<usize>)
        ensures
            match r {
                Some(i) => i < self.used_quota_ip@.len() && self.used_quota_ip@[i as int].0 == ip,
                None => !has_key(self.used_quota_ip@, ip),
            },
    {
        let mut i: usize = 0;
        while i < self.used_quota_ip.len()
            invariant
                i <= self.used_quota_ip.len(),
                forall|j: int| 0 <= j < i ==> self.used_quota_ip@[j].0 != ip,
            decreases self.used_quota_ip.len() - i,
        {
            if self.used_quota_ip[i].0 == ip {
                return Some(i);
            }
            i = i + 1;
        }
        None
    }

    proof fn lemma_quotas_kept(old: &Self, new: &Self)
        requires
            old.wf(),
            new.used_quota_email == old.used_quota_email,
            new.used_quota_ip == old.used_quota_ip,
            new.quota_nonce == old.quota_nonce,
        ensures
            keys_unique(new.email_quota_seq()),
            keys_unique(new.used_quota_ip@),
            forall|e: Seq<char>| #[trigger] new.email_quota(e) matches Some(q) ==> 1 <= q.0 <= EMAIL_QUOTA
                && q.1 < new.quota_nonce,
            forall|ip: IpAddress| #[trigger] new.ip_quota(ip) matches Some(q) ==> 1 <= q.0 <= IP_QUOTA
                && q.1 < new.quota_nonce,
    {
        assert(new.email_quota_seq() == old.email_quota_seq());
        assert forall|e: Seq<char>| #[trigger] new.email_quota(e) is Some implies 1 <= new.email_quota(e).unwrap().0
            <= EMAIL_QUOTA && new.email_quota(e).unwrap().1 < new.quota_nonce by {
            assert(new.email_quota(e) == old.email_quota(e));
        }
        assert forall|ip: IpAddress| #[trigger] new.ip_quota(ip) is Some implies 1 <= new.ip_quota(ip).unwrap().0
            <= IP_QUOTA && new.ip_quota(ip).unwrap().1 < new.quota_nonce by {
            assert(new.ip_quota(ip) == old.ip_quota(ip));
        }
    }

    fn email_is_blocked(&self, e: &String) -> (r: bool)
        ensures
            r == self.email_blocked(e@),
    {
        self.find_blocked_email(e).is_some()
    }

    fn ip_is_blocked(&self, ip: IpAddress) -> (r: bool)
        requires
            self.wf(),
        ensures
            r == (self.ip_block(ip) is Some),
    {
        let r = self.find_ip_block(ip).is_some();
        proof {
            lemma_lookup_none(self.ip_block_seq(), ip);
        }
        r
    }

    fn get_email_quota(&self, e: &String) -> (r: Option<(u64, u64)>)
        requires
            self.wf(),
        ensures
            r == self.email_quota(e@),
    {
        match self.find_email_quota(e) {
            Some(i) => {
                proof {
                    lemma_lookup_index(self.email_quota_seq(), i as int);
                }
                Some(self.used_quota_email[i].1)
            },
            None => {
                proof {
                    lemma_lookup_none(self.email_quota_seq(), e@);
                }
                None
            },
        }
    }

    fn get_ip_quota(&self, ip: IpAddress) -> (r: Option<(u64, u64)>)
        requires
            self.wf(),
        ensures
            r == self.ip_quota(ip),
    {
        match self.find_ip_quota(ip) {
            Some(i) => {
                proof {
                    lemma_lookup_index(self.used_quota_ip@, i as int);
                }
                Some(self.used_quota_ip[i].1)
            },
            None => {
                proof {
                    lemma_lookup_none(self.used_quota_ip@, ip);
                }
                None
            },
        }
    }

    fn insert_blocked_email(&mut self, e: &String)
        requires
            old(self).wf(),
            !old(self).email_blocked(e@),
        ensures
            final(self).wf(),
            forall|x: Seq<char>| #[trigger] final(self).email_blocked(x) == (old(self).email_blocked(x) || x == e@),
            final(self).used_quota_email == old(self).used_quota_email,
            final(self).block_ip == old(self).block_ip,
            final(self).used_quota_ip == old(self).used_quota_ip,
            final(self).quota_nonce == old(self).quota_nonce,
    {
        let ghost s = self.blocked_seq();
        self.block_email.push(copy_string(e));
        proof {
            assert(self.blocked_seq() =~= s.push(e@));
            assert forall|x: Seq<char>| #[trigger] self.email_blocked(x) == (old(self).email_blocked(x) || x == e@) by {
                if x == e@ {
                    assert(self.blocked_seq()[s.len() as int] == x);
                }
                if s.contains(x) {
                    let i = choose|i: int| 0 <= i < s.len() && s[i] == x;
                    assert(self.blocked_seq()[i] == x);
                }
                if self.blocked_seq().contains(x) && x != e@ {
                    let i = choose|i: int| 0 <= i < self.blocked_seq().len() && self.blocked_seq()[i] == x;
                    assert(s[i] == x);
                }
            }
            assert(self.email_quota_seq() == old(self).email_quota_seq());
            assert(self.ip_block_seq() == old(self).ip_block_seq());
            assert forall|a: int, b: int|
                0 <= a < b < self.blocked_seq().len() implies self.blocked_seq()[a]
                != self.blocked_seq()[b] by {
                if b == s.len() {
                    assert(s[a] != e@);
                }
            }
            Self::lemma_quotas_kept(old(self), self);
        }
    }

    fn remove_blocked_email(&mut self, e: &String)
        requires
            old(self).wf(),
        ensures
            final(self).wf(),
            forall|x: Seq<char>| #[trigger] final(self).email_blocked(x) == (old(self).email_blocked(x) && x != e@),
            final(self).used_quota_email == old(self).used_quota_email,
            final(self).block_ip == old(self).block_ip,
            final(self).used_quota_ip == old(self).used_quota_ip,
            final(self).quota_nonce == old(self).quota_nonce,
    {
        let ghost s = self.blocked_seq();
        match self.find_blocked_email(e) {
            Some(i) => {
                self.block_email.remove(i);
                proof {
                    assert(self.blocked_seq() =~= s.remove(i as int));
                    assert forall|x: Seq<char>| #[trigger]
                        self.email_blocked(x) == (old(self).email_blocked(x) && x != e@) by {
                        if self.blocked_seq().contains(x) {
                            let j = choose|j: int| 0 <= j < self.blocked_seq().len() && self.blocked_seq()[j] == x;
                            let j2 = if j < i { j } else { j + 1 };
                            assert(s[j2] == x);
                            assert(j2 != i);
                        }
                        if old(self).email_blocked(x) && x != e@ {
                            let j = choose|j: int| 0 <= j < s.len() && s[j] == x;
                            assert(j != i);
                            let j2 = if j < i { j } else { j - 1 };
                            assert(self.blocked_seq()[j2] == x);
                        }
                    }
                    assert forall|a: int, b: int|
                        0 <= a < b < self.blocked_seq().len() implies self.blocked_seq()[a]
                        != self.blocked_seq()[b] by {
                        let a2 = if a < i { a } else { a + 1 };
                        let b2 = if b < i { b } else { b + 1 };
                        assert(self.blocked_seq()[a] == s[a2] && self.blocked_seq()[b] == s[b2]);
                    }
                    assert(self.email_quota_seq() == old(self).email_quota_seq());
                    assert(self.ip_block_seq() == old(self).ip_block_seq());
                    Self::lemma_quotas_kept(old(self), self);
                }
            },
            None => {},
        }
    }

    fn set_ip_block(&mut self, ip: IpAddress, e: &String)
        requires
            old(self).wf(),
        ensures
            final(self).wf(),
            forall|i: IpAddress| #[trigger] final(self).ip_block(i) == if i == ip {
                Some(e@)
            } else {
                old(self).ip_block(i)
            },
            final(self).block_email == old(self).block_email,
            final(self).used_quota_email == old(self).used_quota_email,
            final(self).used_quota_ip == old(self).used_quota_ip,
            final(self).quota_nonce == old(self).quota_nonce,
    {
        let ghost s = self.ip_block_seq();
        match self.find_ip_block(ip) {
            Some(i) => {
                self.block_ip.set(i, (ip, copy_string(e)));
                proof {
                    assert(self.ip_block_seq() =~= s.update(i as int, (s[i as int].0, e@)));
                    assert forall|q: IpAddress| #[trigger] self.ip_block(q) == if q == ip {
                        Some(e@)
                    } else {
                        old(self).ip_block(q)
                    } by {
                        lemma_lookup_update(s, i as int, e@, q);
                    }
                    lemma_lookup_update(s, i as int, e@, ip);
                }
            },
            None => {
                self.block_ip.push((ip, copy_string(e)));
                proof {
                    assert(self.ip_block_seq() =~= s.push((ip, e@)));
                    lemma_unique_push(s, ip, e@);
                    assert forall|q: IpAddress| #[trigger] self.ip_block(q) == if q == ip {
                        Some(e@)
                    } else {
                        old(self).ip_block(q)
                    } by {
                        lemma_lookup_push(s, ip, e@, q);
                    }
                }
            },
        }
        proof {
            assert(self.blocked_seq() == old(self).blocked_seq());
            assert(self.email_quota_seq() == old(self).email_quota_seq());
            Self::lemma_quotas_kept(old(self), self);
        }
    }

    fn remove_ip_block_for(&mut self, ip: IpAddress, e: &String)
        requires
            old(self).wf(),
        ensures
            final(self).wf(),
            forall|i: IpAddress| #[trigger] final(self).ip_block(i) == if i == ip && old(self).ip_block(ip)
                == Some(e@) {
                None
            } else {
                old(self).ip_block(i)
            },
            final(self).block_email == old(self).block_email,
            final(self).used_quota_email == old(self).used_quota_email,
            final(self).used_quota_ip == old(self).used_quota_ip,
            final(self).quota_nonce == old(self).quota_nonce,
    {
        let ghost s = self.ip_block_seq();
        match self.find_ip_block(ip) {
            Some(i) => {
                proof {
                    lemma_lookup_index(s, i as int);
                }
                if self.block_ip[i].1.eq(e) {
                    self.block_ip.remove(i);
                    proof {
                        assert(self.ip_block_seq() =~= s.remove(i as int));
                        lemma_lookup_remove(s, i as int, ip);
                        assert forall|q: IpAddress| #[trigger] self.ip_block(q) == if q == ip && old(self).ip_block(ip)
                            == Some(e@) {
                            None
                        } else {
                            old(self).ip_block(q)
                        } by {
                            lemma_lookup_remove(s, i as int, q);
                        }
                    }
                }
            },
            None => {
                proof {
                    lemma_lookup_none(s, ip);
                }
            },
        }
        proof {
            assert(self.blocked_seq() == old(self).blocked_seq());
            assert(self.email_quota_seq() == old(self).email_quota_seq());
            Self::lemma_quotas_kept(old(self), self);
        }
    }

    fn use_email_quota(&mut self, e: &String)
        requires
            old(self).wf(),
            old(self).email_quota(e@) matches Some(q) ==> q.0 < EMAIL_QUOTA,
            old(self).nonce() < u64::MAX,
        ensures
            final(self).wf(),
            forall|x: Seq<char>| #[trigger] final(self).email_quota(x) == if x == e@ {
                Some(consumed(old(self).email_quota(e@), old(self).nonce()))
            } else {
                old(self).email_quota(x)
            },
            final(self).nonce() == old(self).nonce_after_email(e@),
            final(self).block_email == old(self).block_email,
            final(self).block_ip == old(self).block_ip,
            final(self).used_quota_ip == old(self).used_quota_ip,
    {
        let ghost s = self.email_quota_seq();
        match self.find_email_quota(e) {
            Some(i) => {
                let (used, nonce) = self.used_quota_email[i].1;
                proof {
                    lemma_lookup_index(s, i as int);
                }
                self.used_quota_email.set(i, (copy_string(e), (used + 1, nonce)));
                proof {
                    assert(self.email_quota_seq() =~= s.update(i as int, (s[i as int].0, (
                        (used + 1) as u64,
                        nonce,
                    ))));
                    assert forall|x: Seq<char>| #[trigger] self.email_quota(x) == if x == e@ {
                        Some(consumed(old(self).email_quota(e@), old(self).nonce()))
                    } else {
                        old(self).email_quota(x)
                    } by {
                        lemma_lookup_update(s, i as int, ((used + 1) as u64, nonce), x);
                    }
                    lemma_lookup_update(s, i as int, ((used + 1) as u64, nonce), e@);
                }
            },
            None => {
                let nonce = self.quota_nonce;
                self.used_quota_email.push((copy_string(e), (1, nonce)));
                self.quota_nonce = nonce + 1;
                proof {
                    lemma_lookup_none(s, e@);
                    assert(self.email_quota_seq() =~= s.push((e@, (1u64, nonce))));
                    lemma_unique_push(s, e@, (1u64, nonce));
                    assert forall|x: Seq<char>| #[trigger] self.email_quota(x) == if x == e@ {
                        Some(consumed(old(self).email_quota(e@), old(self).nonce()))
                    } else {
                        old(self).email_quota(x)
                    } by {
                        lemma_lookup_push(s, e@, (1u64, nonce), x);
                    }
                }
            },
        }
        proof {
            assert(self.blocked_seq() == old(self).blocked_seq());
            assert(self.ip_block_seq() == old(self).ip_block_seq());
            assert forall|x: Seq<char>| #[trigger] self.email_quota(x) is Some implies 1 <= self.email_quota(x).unwrap().0
                <= EMAIL_QUOTA && self.email_quota(x).unwrap().1 < self.quota_nonce by {
                if x != e@ {
                    assert(self.email_quota(x) == old(self).email_quota(x));
                }
            }
            assert forall|ip: IpAddress| #[trigger] self.ip_quota(ip) is Some implies 1 <= self.ip_quota(ip).unwrap().0
                <= IP_QUOTA && self.ip_quota(ip).unwrap().1 < self.quota_nonce by {
                assert(self.ip_quota(ip) == old(self).ip_quota(ip));
            }
        }
    }

    fn use_ip_quota(&mut self, ip: IpAddress)
        requires
            old(self).wf(),
            old(self).ip_quota(ip) matches Some(q) ==> q.0 < IP_QUOTA,
            old(self).nonce() < u64::MAX,
        ensures
            final(self).wf(),
            forall|i: IpAddress| #[trigger] final(self).ip_quota(i) == if i == ip {
                Some(consumed(old(self).ip_quota(ip), old(self).nonce()))
            } else {
                old(self).ip_quota(i)
            },
            final(self).nonce() == if old(self).ip_quota(ip) is None {
                old(self).nonce() + 1
            } else {
                old(self).nonce() as int
            },
            final(self).block_email == old(self).block_email,
            final(self).block_ip == old(self).block_ip,
            final(self).used_quota_email == old(self).used_quota_email,
    {
        let ghost s = self.used_quota_ip@;
        match self.find_ip_quota(ip) {
            Some(i) => {
                let (used, nonce) = self.used_quota_ip[i].1;
                proof {
                    lemma_lookup_index(s, i as int);
                }
                self.used_quota_ip.set(i, (ip, (used + 1, nonce)));
                proof {
                    assert forall|x: IpAddress| #[trigger] self.ip_quota(x) == if x == ip {
                        Some(consumed(old(self).ip_quota(ip), old(self).nonce()))
                    } else {
                        old(self).ip_quota(x)
                    } by {
                        lemma_lookup_update(s, i as int, ((used + 1) as u64, nonce), x);
                    }
                    lemma_lookup_update(s, i as int, ((used + 1) as u64, nonce), ip);
                }
            },
            None => {
                let nonce = self.quota_nonce;
                self.used_quota_ip.push((ip, (1, nonce)));
                self.quota_nonce = nonce + 1;
                proof {
                    lemma_lookup_none(s, ip);
                    lemma_unique_push(s, ip, (1u64, nonce));
                    assert forall|x: IpAddress| #[trigger] self.ip_quota(x) == if x == ip {
                        Some(consumed(old(self).ip_quota(ip), old(self).nonce()))
                    } else {
                        old(self).ip_quota(x)
                    } by {
                        lemma_lookup_push(s, ip, (1u64, nonce), x);
                    }
                }
            },
        }
        proof {
            assert(self.blocked_seq() == old(self).blocked_seq());
            assert(self.ip_block_seq() == old(self).ip_block_seq());
            assert(self.email_quota_seq() == old(self).email_quota_seq());
            assert forall|x: Seq<char>| #[trigger] self.email_quota(x) is Some implies 1 <= self.email_quota(x).unwrap().0
                <= EMAIL_QUOTA && self.email_quota(x).unwrap().1 < self.quota_nonce by {
                assert(self.email_quota(x) == old(self).email_quota(x));
            }
            assert forall|x: IpAddress| #[trigger] self.ip_quota(x) is Some implies 1 <= self.ip_quota(x).unwrap().0
                <= IP_QUOTA && self.ip_quota(x).unwrap().1 < self.quota_nonce by {
                if x != ip {
                    assert(self.ip_quota(x) == old(self).ip_quota(x));
                }
            }
        }
    }

    fn remove_email_quota_if(&mut self, e: &String, nonce: Option<u64>)
        requires
            old(self).wf(),
        ensures
            final(self).wf(),
            forall|x: Seq<char>| #[trigger] final(self).email_quota(x) == if x == e@ && (match nonce {
                Some(n) => old(self).email_quota(x) matches Some(q) && q.1 == n,
                None => true,
            }) {
                None
            } else {
                old(self).email_quota(x)
            },
            final(self).block_email == old(self).block_email,
            final(self).block_ip == old(self).block_ip,
            final(self).used_quota_ip == old(self).used_quota_ip,
            final(self).quota_nonce == old(self).quota_nonce,
    {
        let ghost s = self.email_quota_seq();
        match self.find_email_quota(e) {
            Some(i) => {
                proof {
                    lemma_lookup_index(s, i as int);
                }
                let matches = match nonce {
                    Some(n) => self.used_quota_email[i].1.1 == n,
                    None => true,
                };
                if matches {
                    self.used_quota_email.remove(i);
                    proof {
                        assert(self.email_quota_seq() =~= s.remove(i as int));
                        lemma_lookup_remove(s, i as int, e@);
                        assert forall|x: Seq<char>| #[trigger] self.email_quota(x) == if x == e@ && (match nonce {
                            Some(n) => old(self).email_quota(x) matches Some(q) && q.1 == n,
                            None => true,
                        }) {
                            None
                        } else {
                            old(self).email_quota(x)
                        } by {
                            lemma_lookup_remove(s, i as int, x);
                        }
                    }
                }
            },
            None => {
                proof {
                    lemma_lookup_none(s, e@);
                }
            },
        }
        proof {
            assert(self.blocked_seq() == old(self).blocked_seq());
            assert(self.ip_block_seq() == old(self).ip_block_seq());
            assert forall|x: Seq<char>| #[trigger] self.email_quota(x) is Some implies 1 <= self.email_quota(x).unwrap().0
                <= EMAIL_QUOTA && self.email_quota(x).unwrap().1 < self.quota_nonce by {
                assert(self.email_quota(x) == old(self).email_quota(x));
            }
            assert forall|x: IpAddress| #[trigger] self.ip_quota(x) is Some implies 1 <= self.ip_quota(x).unwrap().0
                <= IP_QUOTA && self.ip_quota(x).unwrap().1 < self.quota_nonce by {
                assert(self.ip_quota(x) == old(self).ip_quota(x));
            }
        }
    }

    fn release_ip_quota(&mut self, ip: IpAddress, nonce: Option<u64>)
        requires
            old(self).wf(),
        ensures
            final(self).wf(),
            forall|i: IpAddress| #[trigger] final(self).ip_quota(i) == if i == ip {
                match nonce {
                    Some(n) => if old(self).ip_quota(i) matches Some(q) && q.1 == n {
                        None
                    } else {
                        old(self).ip_quota(i)
                    },
                    None => refunded(old(self).ip_quota(i)),
                }
            } else {
                old(self).ip_quota(i)
            },
            final(self).block_email == old(self).block_email,
            final(self).block_ip == old(self).block_ip,
            final(self).used_quota_email == old(self).used_quota_email,
            final(self).quota_nonce == old(self).quota_nonce,
    {
        let ghost s = self.used_quota_ip@;
        match self.find_ip_quota(ip) {
            Some(i) => {
                proof {
                    lemma_lookup_index(s, i as int);
                }
                let (used, n0) = self.used_quota_ip[i].1;
                let drop = match nonce {
                    Some(n) => n0 == n,
                    None => used <= 1,
                };
                if drop {
                    self.used_quota_ip.remove(i);
                    proof {
                        lemma_lookup_remove(s, i as int, ip);
                        assert forall|x: IpAddress| #[trigger] self.ip_quota(x) == if x == ip {
                            None
                        } else {
                            old(self).ip_quota(x)
                        } by {
                            lemma_lookup_remove(s, i as int, x);
                        }
                    }
                } else if nonce.is_none() {
                    self.used_quota_ip.set(i, (ip, (used - 1, n0)));
                    proof {
                        lemma_lookup_update(s, i as int, ((used - 1) as u64, n0), ip);
                        assert forall|x: IpAddress| #[trigger] self.ip_quota(x) == if x == ip {
                            Some(((used - 1) as u64, n0))
                        } else {
                            old(self).ip_quota(x)
                        } by {
                            lemma_lookup_update(s, i as int, ((used - 1) as u64, n0), x);
                        }
                    }
                }
            },
            None => {
                proof {
                    lemma_lookup_none(s, ip);
                }
            },
        }
        proof {
            assert(self.blocked_seq() == old(self).blocked_seq());
            assert(self.ip_block_seq() == old(self).ip_block_seq());
            assert(self.email_quota_seq() == old(self).email_quota_seq());
            assert forall|x: Seq<char>| #[trigger] self.email_quota(x) is Some implies 1 <= self.email_quota(x).unwrap().0
                <= EMAIL_QUOTA && self.email_quota(x).unwrap().1 < self.quota_nonce by {
                assert(self.email_quota(x) == old(self).email_quota(x));
            }
            assert forall|x: IpAddress| #[trigger] self.ip_quota(x) is Some implies 1 <= self.ip_quota(x).unwrap().0
                <= IP_QUOTA && self.ip_quota(x).unwrap().1 < self.quota_nonce by {
                if x != ip {
                    assert(self.ip_quota(x) == old(self).ip_quota(x));
                }
            }
        }
    }

    /// Checks the limits of sending to `email` from `ip` and, when allowed,
    /// blocks both for their cooldowns and uses one unit of both quotas.
    /// Returns the outcome and the cleanups to schedule.
    pub fn check_and_consume_quota(&mut self, ip: &IpAddress, email: &str) -> (r: (
        EmailLimitingResult,
        Vec<ScheduledEmailLimitCleanup>,
    ))
        requires
            old(self).wf(),
            old(self).nonce() < u64::MAX - 1,
        ensures
            Self::consume_post(*old(self), *final(self), *ip, email@, (r.0, r.1@.map_values(|c: ScheduledEmailLimitCleanup| c@))),
    {
        let ip = *ip;
        let e = email.to_owned();
        if self.ip_is_blocked(ip) {
            return (EmailLimitingResult::IpLimited(IP_COOLDOWN_MS), Vec::new());
        }
        if self.email_is_blocked(&e) {
            return (EmailLimitingResult::EmailLimited(EMAIL_COOLDOWN_MS), Vec::new());
        }
        let ip_quota = self.get_ip_quota(ip);
        if let Some(q) = ip_quota {
            if q.0 >= IP_QUOTA {
                return (EmailLimitingResult::IpLimited(EMAIL_QUOTA_REFILL_DURATION_MS), Vec::new());
            }
        }
        let email_quota = self.get_email_quota(&e);
        if let Some(q) = email_quota {
            if q.0 >= EMAIL_QUOTA {
                return (EmailLimitingResult::EmailLimited(EMAIL_QUOTA_REFILL_DURATION_MS), Vec::new());
            }
        }
        let ghost s0 = *self;
        let email_nonce = self.quota_nonce;
        self.insert_blocked_email(&e);
        let ghost sa = *self;
        self.set_ip_block(ip, &e);
        let ghost s1 = *self;
        assert(s1.email_quota_seq() == s0.email_quota_seq());
        assert(s1.email_quota(e@) == s0.email_quota(e@));
        self.use_email_quota(&e);
        let ghost s2 = *self;
        let ip_nonce = self.quota_nonce;
        assert(s2.ip_quota(ip) == s0.ip_quota(ip));
        self.use_ip_quota(ip);
        let mut cleanups: Vec<ScheduledEmailLimitCleanup> = Vec::new();
        cleanups.push(
            ScheduledEmailLimitCleanup {
                after_ms: EMAIL_COOLDOWN_MS,
                task: EmailLimitCleanup::UnblockEmail { email: copy_string(&e) },
            },
        );
        cleanups.push(
            ScheduledEmailLimitCleanup {
                after_ms: IP_COOLDOWN_MS,
                task: EmailLimitCleanup::UnblockIp { ip, email: copy_string(&e) },
            },
        );
        let ghost base = cleanups@.map_values(|c: ScheduledEmailLimitCleanup| c@);
        if email_quota.is_none() {
            cleanups.push(
                ScheduledEmailLimitCleanup {
                    after_ms: EMAIL_QUOTA_REFILL_DURATION_MS,
                    task: EmailLimitCleanup::RefillEmailQuota { email: copy_string(&e), nonce: email_nonce },
                },
            );
        }
        let ghost mid = cleanups@.map_values(|c: ScheduledEmailLimitCleanup| c@);
        if ip_quota.is_none() {
            cleanups.push(
                ScheduledEmailLimitCleanup {
                    after_ms: IP_QUOTA_REFILL_DURATION_MS,
                    task: EmailLimitCleanup::RefillIpQuota { ip, nonce: ip_nonce },
                },
            );
        }
        proof {
            let v = cleanups@.map_values(|c: ScheduledEmailLimitCleanup| c@);
            assert(base =~= seq![
                (EMAIL_COOLDOWN_MS, EmailLimitCleanupView::UnblockEmail(e@)),
                (IP_COOLDOWN_MS, EmailLimitCleanupView::UnblockIp(ip, e@)),
            ]);
            if email_quota.is_none() {
                assert(mid =~= base.push((EMAIL_QUOTA_REFILL_DURATION_MS, EmailLimitCleanupView::RefillEmailQuota(e@, email_nonce))));
            } else {
                assert(mid =~= base);
            }
            if ip_quota.is_none() {
                assert(v =~= mid.push((IP_QUOTA_REFILL_DURATION_MS, EmailLimitCleanupView::RefillIpQuota(ip, ip_nonce))));
            } else {
                assert(v =~= mid);
            }
            assert(v =~= s0.allowed_cleanups(ip, e@));
            assert forall|x: Seq<char>| #[trigger] self.email_blocked(x) == (s0.email_blocked(x) || x == e@) by {
                assert(self.blocked_seq() == sa.blocked_seq());
                assert(sa.email_blocked(x) == (s0.email_blocked(x) || x == e@));
            }
            assert forall|i: IpAddress| #[trigger] self.ip_block(i) == if i == ip {
                Some(e@)
            } else {
                s0.ip_block(i)
            } by {
                assert(self.ip_block_seq() == s1.ip_block_seq());
                assert(sa.ip_block_seq() == s0.ip_block_seq());
                assert(s1.ip_block(i) == if i == ip { Some(e@) } else { sa.ip_block(i) });
            }
            assert forall|x: Seq<char>| #[trigger] self.email_quota(x) == if x == e@ {
                Some(consumed(s0.email_quota(e@), s0.nonce()))
            } else {
                s0.email_quota(x)
            } by {
                assert(self.email_quota_seq() == s2.email_quota_seq());
                assert(s1.email_quota_seq() == s0.email_quota_seq());
                assert(s1.email_quota(x) == s0.email_quota(x));
                assert(s1.nonce() == s0.nonce());
                assert(s2.email_quota(x) == if x == e@ {
                    Some(consumed(s1.email_quota(e@), s1.nonce()))
                } else {
                    s1.email_quota(x)
                });
            }
            assert forall|i: IpAddress| #[trigger] self.ip_quota(i) == if i == ip {
                Some(consumed(s0.ip_quota(ip), s0.nonce_after_email(e@)))
            } else {
                s0.ip_quota(i)
            } by {
                assert(s2.ip_quota(i) == s0.ip_quota(i));
            }
        }
        (EmailLimitingResult::Allowed, cleanups)
    }

    /// What `refund_ip_quota` does.
    pub open spec fn refund_post(old: Self, new: Self, ip: IpAddress, e: Seq<char>) -> bool {
        &&& new.wf()
        &&& forall|i: IpAddress| #[trigger] new.ip_block(i) == if i == ip && old.ip_block(ip) == Some(e) {
            None
        } else {
            old.ip_block(i)
        }
        &&& forall|i: IpAddress| #[trigger] new.ip_quota(i) == if i == ip {
            refunded(old.ip_quota(ip))
        } else {
            old.ip_quota(i)
        }
        &&& forall|x: Seq<char>| #[trigger] new.email_blocked(x) == old.email_blocked(x)
        &&& forall|x: Seq<char>| #[trigger] new.email_quota(x) == old.email_quota(x)
        &&& new.nonce() == old.nonce()
    }

    /// Gives back one unit of the IP quota, and lifts the IP cooldown if it
    /// was for `email`.
    pub fn refund_ip_quota(&mut self, ip: &IpAddress, email: &str)
        requires
            old(self).wf(),
        ensures
            Self::refund_post(*old(self), *final(self), *ip, email@),
    {
        let e = email.to_owned();
        let ghost s0 = *self;
        self.remove_ip_block_for(*ip, &e);
        let ghost s1 = *self;
        assert(s1.ip_quota(*ip) == s0.ip_quota(*ip));
        self.release_ip_quota(*ip, None);
        proof {
            assert(self.blocked_seq() == s0.blocked_seq());
            assert(self.email_quota_seq() == s0.email_quota_seq());
            assert(self.ip_block_seq() == s1.ip_block_seq());
            assert forall|i: IpAddress| #[trigger] self.ip_quota(i) == if i == *ip {
                refunded(s0.ip_quota(*ip))
            } else {
                s0.ip_quota(i)
            } by {
                assert(s1.ip_quota(i) == s0.ip_quota(i));
            }
            assert forall|i: IpAddress| #[trigger] self.ip_block(i) == if i == *ip && s0.ip_block(*ip) == Some(e@) {
                None
            } else {
                s0.ip_block(i)
            } by {
                assert(s1.ip_block(i) == if i == *ip && s0.ip_block(*ip) == Some(e@) {
                    None
                } else {
                    s0.ip_block(i)
                });
            }
            assert forall|x: Seq<char>| #[trigger] self.email_blocked(x) == s0.email_blocked(x) by {}
            assert forall|x: Seq<char>| #[trigger] self.email_quota(x) == s0.email_quota(x) by {}
        }
    }

    /// What `clear_email_limit` does.
    pub open spec fn clear_post(old: Self, new: Self, e: Seq<char>) -> bool {
        &&& new.wf()
        &&& forall|x: Seq<char>| #[trigger] new.email_blocked(x) == (old.email_blocked(x) && x != e)
        &&& forall|x: Seq<char>| #[trigger] new.email_quota(x) == if x == e {
            None
        } else {
            old.email_quota(x)
        }
        &&& forall|i: IpAddress| #[trigger] new.ip_block(i) == old.ip_block(i)
        &&& forall|i: IpAddress| #[trigger] new.ip_quota(i) == old.ip_quota(i)
        &&& new.nonce() == old.nonce()
    }

    /// Lifts the cooldown and the quota of the address.
    pub fn clear_email_limit(&mut self, email: &str)
        requires
            old(self).wf(),
        ensures
            Self::clear_post(*old(self), *final(self), email@),
    {
        let e = email.to_owned();
        let ghost s0 = *self;
        self.remove_blocked_email(&e);
        let ghost s1 = *self;
        self.remove_email_quota_if(&e, None);
        proof {
            assert(self.blocked_seq() == s1.blocked_seq());
            assert(self.ip_block_seq() == s0.ip_block_seq());
            assert forall|x: Seq<char>| #[trigger] self.email_quota(x) == if x == e@ {
                None
            } else {
                s0.email_quota(x)
            } by {
                assert(s1.email_quota_seq() == s0.email_quota_seq());
                assert(s1.email_quota(x) == s0.email_quota(x));
            }
            assert forall|x: Seq<char>| #[trigger] self.email_blocked(x) == (s0.email_blocked(x) && x != e@) by {
                assert(s1.email_blocked(x) == (s0.email_blocked(x) && x != e@));
            }
            assert forall|i: IpAddress| #[trigger] self.ip_block(i) == s0.ip_block(i) by {}
            assert forall|i: IpAddress| #[trigger] self.ip_quota(i) == s0.ip_quota(i) by {}
        }
    }

    /// What running a cleanup does.
    pub open spec fn cleanup_post(old: Self, new: Self, task: EmailLimitCleanupView) -> bool {
        &&& new.wf()
        &&& new.nonce() == old.nonce()
        &&& forall|x: Seq<char>| #[trigger] new.email_blocked(x) == match task {
            EmailLimitCleanupView::UnblockEmail(e) => old.email_blocked(x) && x != e,
            _ => old.email_blocked(x),
        }
        &&& forall|i: IpAddress| #[trigger] new.ip_block(i) == match task {
            EmailLimitCleanupView::UnblockIp(ip, e) => if i == ip && old.ip_block(ip) == Some(e) {
                None
            } else {
                old.ip_block(i)
            },
            _ => old.ip_block(i),
        }
        &&& forall|x: Seq<char>| #[trigger] new.email_quota(x) == match task {
            EmailLimitCleanupView::RefillEmailQuota(e, n) => if x == e && (old.email_quota(x) matches Some(q) && q.1 == n) {
                None
            } else {
                old.email_quota(x)
            },
            _ => old.email_quota(x),
        }
        &&& forall|i: IpAddress| #[trigger] new.ip_quota(i) == match task {
            EmailLimitCleanupView::RefillIpQuota(ip, n) => if i == ip && (old.ip_quota(i) matches Some(q) && q.1 == n) {
                None
            } else {
                old.ip_quota(i)
            },
            _ => old.ip_quota(i),
        }
    }

    /// Runs a cleanup whose delay has passed.
    pub fn run_cleanup(&mut self, task: &EmailLimitCleanup)
        requires
            old(self).wf(),
        ensures
            Self::cleanup_post(*old(self), *final(self), task@),
    {
        let ghost s0 = *self;
        match task {
            EmailLimitCleanup::UnblockEmail { email } => {
                self.remove_blocked_email(email);
                proof {
                    assert(self.email_quota_seq() == s0.email_quota_seq());
                    assert(self.ip_block_seq() == s0.ip_block_seq());
                }
            },
            EmailLimitCleanup::UnblockIp { ip, email } => {
                self.remove_ip_block_for(*ip, email);
                proof {
                    assert(self.email_quota_seq() == s0.email_quota_seq());
                    assert(self.blocked_seq() == s0.blocked_seq());
                }
            },
            EmailLimitCleanup::RefillEmailQuota { email, nonce } => {
                self.remove_email_quota_if(email, Some(*nonce));
                proof {
                    assert(self.blocked_seq() == s0.blocked_seq());
                    assert(self.ip_block_seq() == s0.ip_block_seq());
                }
            },
            EmailLimitCleanup::RefillIpQuota { ip, nonce } => {
                self.release_ip_quota(*ip, Some(*nonce));
                proof {
                    assert(self.blocked_seq() == s0.blocked_seq());
                    assert(self.ip_block_seq() == s0.ip_block_seq());
                    assert(self.email_quota_seq() == s0.email_quota_seq());
                }
            },
        }
    }

    /// After an allowed send, the address is limited, whichever IP asks next.
    pub proof fn law_allowed_send_limits_address(
        old: Self,
        new: Self,
        ip: IpAddress,
        e: Seq<char>,
        r: (EmailLimitingResult, Seq<(u64, EmailLimitCleanupView)>),
        other_ip: IpAddress,
    )
        requires
            Self::consume_post(old, new, ip, e, r),
            r.0 == EmailLimitingResult::Allowed,
        ensures
            new.limit_decision(other_ip, e) != EmailLimitingResult::Allowed,
    {
        assert(new.email_blocked(e));
    }

    /// After an allowed send, the IP is limited for its cooldown, whatever
    /// address it asks for next.
    pub proof fn law_allowed_send_limits_ip(
        old: Self,
        new: Self,
        ip: IpAddress,
        e: Seq<char>,
        r: (EmailLimitingResult, Seq<(u64, EmailLimitCleanupView)>),
        other_email: Seq<char>,
    )
        requires
            Self::consume_post(old, new, ip, e, r),
            r.0 == EmailLimitingResult::Allowed,
        ensures
            new.limit_decision(ip, other_email) == EmailLimitingResult::IpLimited(IP_COOLDOWN_MS),
    {
        assert(new.ip_block(ip) == Some(e));
    }

    /// An allowed send uses exactly one unit of the address quota and one of
    /// the IP quota; a refused one uses none.
    pub proof fn law_send_uses_one_unit(
        old: Self,
        new: Self,
        ip: IpAddress,
        e: Seq<char>,
        r: (EmailLimitingResult, Seq<(u64, EmailLimitCleanupView)>),
    )
        requires
            Self::consume_post(old, new, ip, e, r),
        ensures
            used(new.email_quota(e)) == used(old.email_quota(e)) + if r.0 == EmailLimitingResult::Allowed {
                1int
            } else {
                0int
            },
            used(new.ip_quota(ip)) == used(old.ip_quota(ip)) + if r.0 == EmailLimitingResult::Allowed {
                1int
            } else {
                0int
            },
    {
        if r.0 == EmailLimitingResult::Allowed {
            assert(new.email_quota(e) == Some(consumed(old.email_quota(e), old.nonce())));
            assert(new.ip_quota(ip) == Some(consumed(old.ip_quota(ip), old.nonce_after_email(e))));
        }
    }

    /// Used quotas never exceed their maxima.
    pub proof fn law_quota_bounded(s: Self, e: Seq<char>, ip: IpAddress)
        requires
            s.wf(),
        ensures
            used(s.email_quota(e)) <= EMAIL_QUOTA,
            used(s.ip_quota(ip)) <= IP_QUOTA,
    {
        assert(s.email_quota(e) matches Some(q) ==> q.0 <= EMAIL_QUOTA);
        assert(s.ip_quota(ip) matches Some(q) ==> q.0 <= IP_QUOTA);
    }

    /// Every stored quota has been used at least once, and at most its
    /// maximum.
    pub proof fn law_stored_quotas_used(s: Self, e: Seq<char>, ip: IpAddress)
        requires
            s.wf(),
        ensures
            s.email_quota(e) matches Some(q) ==> 1 <= q.0 <= EMAIL_QUOTA,
            s.ip_quota(ip) matches Some(q) ==> 1 <= q.0 <= IP_QUOTA,
    {
        assert(s.email_quota(e) matches Some(q) ==> 1 <= q.0 <= EMAIL_QUOTA);
        assert(s.ip_quota(ip) matches Some(q) ==> 1 <= q.0 <= IP_QUOTA);
    }

    /// Refunding the IP right after an allowed send to `e` gives every IP
    /// back the cooldown and quota it had before the send; the address keeps
    /// the cooldown and quota unit the send gave it.
    pub proof fn law_refund_undoes_ip_use(
        s0: Self,
        s1: Self,
        s2: Self,
        ip: IpAddress,
        e: Seq<char>,
        r: (EmailLimitingResult, Seq<(u64, EmailLimitCleanupView)>),
    )
        requires
            s0.wf(),
            Self::consume_post(s0, s1, ip, e, r),
            r.0 == EmailLimitingResult::Allowed,
            Self::refund_post(s1, s2, ip, e),
        ensures
            forall|i: IpAddress| #[trigger] s2.ip_block(i) == s0.ip_block(i),
            forall|i: IpAddress| #[trigger] s2.ip_quota(i) == s0.ip_quota(i),
            forall|x: Seq<char>| #[trigger] s2.email_blocked(x) == s1.email_blocked(x),
            forall|x: Seq<char>| #[trigger] s2.email_quota(x) == s1.email_quota(x),
    {
        assert(s0.ip_block(ip) is None);
        assert(s1.ip_block(ip) == Some(e));
        assert forall|i: IpAddress| #[trigger] s2.ip_block(i) == s0.ip_block(i) by {
            assert(s2.ip_block(i) == s2.ip_block(i));
            assert(s1.ip_block(i) == s1.ip_block(i));
        }
        assert forall|i: IpAddress| #[trigger] s2.ip_quota(i) == s0.ip_quota(i) by {
            assert(s2.ip_quota(i) == s2.ip_quota(i));
            assert(s1.ip_quota(i) == s1.ip_quota(i));
            if i == ip {
                assert(s0.ip_quota(ip) matches Some(q) ==> 1 <= q.0 <= IP_QUOTA);
            }
        }
    }

    /// A refused send names, as its wait, the delay of the very cleanup that
    /// lifts what refused it: an IP in cooldown waits as long as the IP
    /// unblocking that an allowed send schedules, an address in cooldown as
    /// long as the address unblocking, and an address whose quota is used up
    /// as long as the refill that a new address quota schedules, a full day.
    pub proof fn law_refusal_waits_for_its_cleanup(s: Self, ip: IpAddress, e: Seq<char>, other: Self, ip2: IpAddress)
        requires
            other.email_quota(e) is None,
        ensures
            s.ip_block(ip) is Some ==> s.limit_decision(ip, e) == EmailLimitingResult::IpLimited(
                other.allowed_cleanups(ip2, e)[1].0,
            ),
            s.ip_block(ip) is None && s.email_blocked(e) ==> s.limit_decision(ip, e) == EmailLimitingResult::EmailLimited(
                other.allowed_cleanups(ip2, e)[0].0,
            ),
            ({
                &&& s.ip_block(ip) is None
                &&& !s.email_blocked(e)
                &&& !(s.ip_quota(ip) matches Some(q) && q.0 >= IP_QUOTA)
                &&& s.email_quota(e) matches Some(q) && q.0 >= EMAIL_QUOTA
            }) ==> s.limit_decision(ip, e) == EmailLimitingResult::EmailLimited(other.allowed_cleanups(ip2, e)[2].0)
                && other.allowed_cleanups(ip2, e)[2].1 == EmailLimitCleanupView::RefillEmailQuota(e, other.nonce())
                && s.limit_decision(ip, e) == EmailLimitingResult::EmailLimited(86_400_000),
            ({
                &&& s.ip_block(ip) is None
                &&& !s.email_blocked(e)
                &&& s.ip_quota(ip) matches Some(q) && q.0 >= IP_QUOTA
            }) ==> s.limit_decision(ip, e) == EmailLimitingResult::IpLimited(86_400_000),
    {
    }

    /// Once the limit of an address is cleared, the address itself no longer
    /// limits a send to it.
    pub proof fn law_cleared_address_not_limited(old: Self, new: Self, e: Seq<char>, ip: IpAddress)
        requires
            Self::clear_post(old, new, e),
        ensures
            !(new.limit_decision(ip, e) is EmailLimited),
    {
        assert(!new.email_blocked(e));
        assert(new.email_quota(e) is None);
    }

    /// A refill timer of a quota that has since been replaced leaves the new
    /// quota in place.
    pub proof fn law_stale_refill_keeps_quota(old: Self, new: Self, e: Seq<char>, nonce: u64)
        requires
            Self::cleanup_post(old, new, EmailLimitCleanupView::RefillEmailQuota(e, nonce)),
            old.email_quota(e) matches Some(q) && q.1 != nonce,
        ensures
            new.email_quota(e) == old.email_quota(e),
    {
        assert(new.email_quota(e) == old.email_quota(e));
    }
}

} // verus!
