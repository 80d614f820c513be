use metw_accounts::dto::repo::EmailLimitingResult;
use metw_accounts::net::IpAddress;
use metw_accounts::repo::email_limiting::{EmailLimitCleanup, MockEmailLimitingRepoImpl};

/// The repository with a clock that runs the cleanups it scheduled.
struct Timed {
    repo: MockEmailLimitingRepoImpl,
    now_ms: u64,
    pending: Vec<(u64, EmailLimitCleanup)>,
}

impl Timed {
    fn new() -> Self {
        Timed { repo: MockEmailLimitingRepoImpl::new(), now_ms: 0, pending: Vec::new() }
    }

    fn check_and_limit_email(&mut self, ip: &IpAddress, email: &str) -> EmailLimitingResult {
        let (result, cleanups) = self.repo.check_and_consume_quota(ip, email);
        for c in cleanups {
            self.pending.push((self.now_ms + c.after_ms, c.task));
        }
        result
    }

    fn advance(&mut self, ms: u64) {
        self.now_ms += ms;
        let mut due: Vec<(u64, EmailLimitCleanup)> = Vec::new();
        let mut later: Vec<(u64, EmailLimitCleanup)> = Vec::new();
        for (at, task) in self.pending.drain(..) {
            if at <= self.now_ms {
                due.push((at, task));
            } else {
                later.push((at, task));
            }
        }
        due.sort_by_key(|(at, _)| *at);
        for (_, task) in due {
            self.repo.run_cleanup(&task);
        }
        self.pending = later;
    }
}

const MINUTE: u64 = 60_000;
const DAY: u64 = 24 * 60 * MINUTE;

#[test]
fn mock_email_limiting_repo_cleanup_task() {
    let mut repo = Timed::new();

    let ip = IpAddress::V6(0x2001_0db8_0000_0000_0000_0000_0000_0001);
    let email = "first@example.com";

    // Emulate sending 5 emails
    for _ in 0..5 {
        assert!(matches!(repo.check_and_limit_email(&ip, email), EmailLimitingResult::Allowed));
        assert!(matches!(
            repo.check_and_limit_email(&ip, email),
            EmailLimitingResult::EmailLimited(..) | EmailLimitingResult::IpLimited(..)
        ));
        repo.advance(MINUTE);
    }

    // Now the email's quota has been filled.
    let another_ip = IpAddress::V4(0x0a00_0001);
    assert!(matches!(repo.check_and_limit_email(&ip, email), EmailLimitingResult::EmailLimited(..)));
    assert!(matches!(repo.check_and_limit_email(&another_ip, email), EmailLimitingResult::EmailLimited(..)));

    let another_email = "second@example.com";
    // Send 5 more emails.
    for _ in 0..5 {
        assert!(matches!(repo.check_and_limit_email(&ip, another_email), EmailLimitingResult::Allowed));
        repo.advance(MINUTE);
    }

    // Now the IP's quota has been filled.
    let yet_another_email = "third@example.com";
    assert!(matches!(repo.check_and_limit_email(&ip, yet_another_email), EmailLimitingResult::IpLimited(..)));

    repo.advance(DAY);

    // Both the email's and IP's quota has been replenished.
    assert!(matches!(repo.check_and_limit_email(&ip, email), EmailLimitingResult::Allowed));
}

#[test]
fn limits_answer_the_longest_wait() {
    let mut repo = MockEmailLimitingRepoImpl::new();
    let ip = IpAddress::V4(1);
    let (first, cleanups) = repo.check_and_consume_quota(&ip, "a@x.y");
    assert_eq!(first, EmailLimitingResult::Allowed);
    // Both cooldowns, then the refills of the two new quotas.
    let delays: Vec<u64> = cleanups.iter().map(|c| c.after_ms).collect();
    assert_eq!(delays, vec![MINUTE, MINUTE, DAY, DAY]);
    assert!(matches!(&cleanups[0].task, EmailLimitCleanup::UnblockEmail { email } if email == "a@x.y"));

    // The IP is checked first.
    assert_eq!(repo.check_and_consume_quota(&ip, "b@x.y").0, EmailLimitingResult::IpLimited(MINUTE));
    assert_eq!(repo.check_and_consume_quota(&IpAddress::V4(2), "a@x.y").0, EmailLimitingResult::EmailLimited(MINUTE));
}

#[test]
fn refund_lifts_the_ip_cooldown_for_that_address() {
    let mut repo = MockEmailLimitingRepoImpl::new();
    let ip = IpAddress::V4(7);
    assert_eq!(repo.check_and_consume_quota(&ip, "a@x.y").0, EmailLimitingResult::Allowed);
    repo.refund_ip_quota(&ip, "other@x.y");
    assert_eq!(repo.check_and_consume_quota(&ip, "b@x.y").0, EmailLimitingResult::IpLimited(MINUTE));
    repo.refund_ip_quota(&ip, "a@x.y");
    assert_eq!(repo.check_and_consume_quota(&ip, "b@x.y").0, EmailLimitingResult::Allowed);
}

#[test]
fn cleared_address_can_be_sent_to_again() {
    let mut repo = MockEmailLimitingRepoImpl::new();
    assert_eq!(repo.check_and_consume_quota(&IpAddress::V4(1), "a@x.y").0, EmailLimitingResult::Allowed);
    repo.clear_email_limit("a@x.y");
    assert_eq!(repo.check_and_consume_quota(&IpAddress::V4(2), "a@x.y").0, EmailLimitingResult::Allowed);
}

#[test]
fn refund_right_after_a_send_restores_the_ip() {
    let mut repo = MockEmailLimitingRepoImpl::new();
    let ip = IpAddress::V4(9);
    // A first send creates the IP quota; a refund drops it again.
    assert_eq!(repo.check_and_consume_quota(&ip, "a@x.y").0, EmailLimitingResult::Allowed);
    repo.refund_ip_quota(&ip, "a@x.y");
    // The address keeps its cooldown, the IP is free.
    assert_eq!(repo.check_and_consume_quota(&IpAddress::V4(10), "a@x.y").0, EmailLimitingResult::EmailLimited(MINUTE));
    for i in 0..10 {
        let email = format!("n{i}@x.y");
        assert_eq!(repo.check_and_consume_quota(&ip, &email).0, EmailLimitingResult::Allowed);
        repo.refund_ip_quota(&ip, &email);
    }
    // Every send was refunded, so the IP quota never filled up.
    assert_eq!(repo.check_and_consume_quota(&ip, "last@x.y").0, EmailLimitingResult::Allowed);
}
