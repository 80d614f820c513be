use metw_accounts::ids::AccountId;
use metw_accounts::repo::token::{MockTokenRepoImpl, TokenCleanup};
use metw_accounts::token::{DecodedToken, ScopeKind, TokenScope};

fn token(account: u64, scope: TokenScope, issued_at: i64, fingerprint: &[u8]) -> DecodedToken {
    DecodedToken {
        id: AccountId(account),
        scope,
        expires_at: issued_at + 3_600_000_000,
        issued_at,
        fingerprint: fingerprint.to_vec(),
    }
}

/// The repository with a clock that runs the cleanups it scheduled.
struct Timed {
    repo: MockTokenRepoImpl,
    now_ms: u64,
    pending: Vec<(u64, TokenCleanup)>,
}

const START_MICROS: i64 = 1_700_000_000_000_000;

impl Timed {
    fn now_micros(&self) -> i64 {
        START_MICROS + (self.now_ms as i64) * 1_000
    }

    fn schedule(&mut self, after_ms: u64, task: TokenCleanup) {
        self.pending.push((self.now_ms + after_ms, task));
    }

    fn advance(&mut self, ms: u64) {
        self.now_ms += ms;
        let mut due: Vec<(u64, TokenCleanup)> = Vec::new();
        let mut later: Vec<(u64, TokenCleanup)> = Vec::new();
        for (at, task) in self.pending.drain(..) {
            if at <= self.now_ms {
                due.push((at, task));
            } else {
                later.push((at, task));
            }
        }
        due.sort_by_key(|(at, _)| *at);
        for (_, task) in due {
            self.repo.run_cleanup(&task);
        }
        self.pending = later;
    }
}

#[test]
fn mock_token_repo_cleanup_task() {
    const LIFETIME_MS: u64 = 3_600_000;
    const MARGIN_MS: u64 = 60_000;
    const GLOBAL_LIFETIME_MS: u64 = 7 * 24 * 3_600_000;
    let mut t = Timed { repo: MockTokenRepoImpl::new(), now_ms: 0, pending: Vec::new() };
    let token = token(1, TokenScope::Session, START_MICROS, b"fingerprint");

    let (revoked, cleanup) = t.repo.check_and_revoke_token(&token, LIFETIME_MS);
    assert!(!revoked);
    let cleanup = cleanup.unwrap();
    t.schedule(cleanup.after_ms, cleanup.task);

    // Now the token is revoked.
    assert!(t.repo.check_and_revoke_token(&token, LIFETIME_MS).0);
    assert!(t.repo.is_revoked(&token));

    t.advance(LIFETIME_MS - MARGIN_MS);

    // Token is still revoked.
    assert!(t.repo.check_and_revoke_token(&token, LIFETIME_MS).0);

    t.advance(MARGIN_MS + 1_000);

    // Now it is not.
    assert!(!t.repo.is_revoked(&token));

    // Same test, but for cutoff-cleanup tasks.
    let now = t.now_micros();
    let (revoked, cleanup) = t.repo.check_and_revoke_account_tokens_at(&token, now, GLOBAL_LIFETIME_MS);
    assert!(!revoked);
    assert!(t.repo.is_revoked(&token));
    let cleanup = cleanup.unwrap();
    t.schedule(cleanup.after_ms, cleanup.task);

    t.advance(10);
    let now = t.now_micros();
    let (previous, cleanup) = t.repo.revoke_account_tokens_at(AccountId(1), now, GLOBAL_LIFETIME_MS);
    assert!(previous.is_some());
    t.schedule(cleanup.after_ms, cleanup.task);

    t.advance(10);
    t.advance(GLOBAL_LIFETIME_MS);

    assert!(!t.repo.is_revoked(&token));
}

#[test]
fn cleanups_against_the_real_clock() {
    let mut repo = MockTokenRepoImpl::new();
    let t = token(1, TokenScope::Session, 1_000, b"fingerprint");
    let (revoked, cleanup) = repo.check_and_revoke_account_tokens(&t, 10_000);
    assert!(!revoked);
    assert!(repo.is_revoked(&t));
    let cleanup = cleanup.unwrap();
    assert_eq!(cleanup.after_ms, 10_000);
    repo.run_cleanup(&cleanup.task);
    assert!(!repo.is_revoked(&t));
    let (_, cleanup) = repo.revoke_account_tokens(AccountId(1), 5);
    assert!(repo.is_revoked(&t));
    repo.run_cleanup(&cleanup.task);
    assert!(!repo.is_revoked(&t));
}

#[test]
fn checked_token_is_revoked_only_once() {
    let mut repo = MockTokenRepoImpl::new();
    let t = token(2, TokenScope::AddEmail { email: "a@b.c".to_string() }, 5, b"f1");
    assert!(!repo.check_and_revoke_token(&t, 1).0);
    let (again, cleanup) = repo.check_and_revoke_token(&t, 1);
    assert!(again);
    assert!(cleanup.is_none());
    // Another token of the same account is untouched.
    let other = token(2, TokenScope::Session, 5, b"f2");
    assert!(!repo.is_revoked(&other));
}

#[test]
fn account_cutoff_covers_earlier_tokens_only() {
    let mut repo = MockTokenRepoImpl::new();
    let (previous, cleanup) = repo.revoke_account_tokens_at(AccountId(3), 1_000, 60_000);
    assert_eq!(previous, None);
    assert_eq!(cleanup.after_ms, 60_000);
    assert!(matches!(cleanup.task, TokenCleanup::ForgetAccountCutoff { account_id, cutoff } if account_id == AccountId(3) && cutoff == 1_000));
    assert!(repo.is_revoked(&token(3, TokenScope::Session, 1_000, b"a")));
    assert!(repo.is_revoked(&token(3, TokenScope::Session, 999, b"b")));
    assert!(!repo.is_revoked(&token(3, TokenScope::Session, 1_001, b"c")));
    assert!(!repo.is_revoked(&token(4, TokenScope::Session, 0, b"d")));

    // A cutoff never moves back.
    let (previous, _) = repo.revoke_account_tokens_at(AccountId(3), 500, 60_000);
    assert_eq!(previous, Some(1_000));
    assert!(repo.is_revoked(&token(3, TokenScope::Session, 1_000, b"e")));
}

#[test]
fn scope_cutoff_covers_only_its_kind() {
    let mut repo = MockTokenRepoImpl::new();
    let scope = TokenScope::ChangePrimaryEmail {
        current_primary_email: "a@x.y".to_string(),
        new_primary_email: "b@x.y".to_string(),
    };
    let (previous, cleanup) = repo.revoke_account_tokens_with_scope_at(AccountId(5), &scope, 100, 600_000);
    assert_eq!(previous, None);
    assert!(matches!(cleanup.task, TokenCleanup::ForgetScopeCutoff { scope: ScopeKind::ChangePrimaryEmail, cutoff: 100, .. }));
    let same_kind = TokenScope::ChangePrimaryEmail {
        current_primary_email: "c@x.y".to_string(),
        new_primary_email: "d@x.y".to_string(),
    };
    assert!(repo.is_revoked(&token(5, same_kind, 50, b"g")));
    assert!(!repo.is_revoked(&token(5, TokenScope::Session, 50, b"h")));
}

#[test]
fn stale_cleanup_keeps_a_raised_cutoff() {
    let mut repo = MockTokenRepoImpl::new();
    let (_, first) = repo.revoke_account_tokens_at(AccountId(6), 100, 1);
    let (_, _second) = repo.revoke_account_tokens_at(AccountId(6), 200, 1);
    // The first cleanup names the old cutoff, so it leaves the new one.
    repo.run_cleanup(&first.task);
    assert!(repo.is_revoked(&token(6, TokenScope::Session, 150, b"i")));
}

#[test]
fn check_and_revoke_with_scope_refuses_a_covered_token() {
    let mut repo = MockTokenRepoImpl::new();
    let scope = TokenScope::CompleteSignup { email: "e@x.y".to_string() };
    let t = token(7, scope, 10, b"j");
    let (revoked, cleanup) = repo.check_and_revoke_account_tokens_with_scope_at(&t, 20, 1_000);
    assert!(!revoked);
    assert!(cleanup.is_some());
    let (revoked, cleanup) = repo.check_and_revoke_account_tokens_with_scope_at(&t, 30, 1_000);
    assert!(revoked);
    assert!(cleanup.is_none());
}
