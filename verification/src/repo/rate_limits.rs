//! Rate limiting and size limits of the repositories.

use vstd::prelude::*;

verus! {

/// Minimum time between two emails sent to the same address (1 minute).
pub const EMAIL_COOLDOWN_MS: u64 = 60_000;

/// Minimum time between two email requests originating from the same IP (1 minute).
pub const IP_COOLDOWN_MS: u64 = 60_000;

/// Maximum quota for a single email address.
pub const EMAIL_QUOTA: u64 = 5;

/// Time required to fully replenish the email quota (24 hours).
pub const EMAIL_QUOTA_REFILL_DURATION_MS: u64 = 86_400_000;

/// Maximum quota for a single IP address.
pub const IP_QUOTA: u64 = 10;

/// Time required to fully replenish the IP quota (24 hours).
pub const IP_QUOTA_REFILL_DURATION_MS: u64 = 86_400_000;

/// The number of email addresses allowed to be added to an account.
pub const MAXIMUM_EMAIL_COUNT: usize = 10;

/// The number of applications allowed per account to be created.
pub const MAXIMUM_APPLICATION_COUNT: usize = 10;

/// The number of redirect URLs allowed per application to be added.
pub const MAXIMUM_REDIRECT_URL_COUNT: usize = 10;

} // verus!
