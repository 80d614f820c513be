//! Values that the repositories hand to the layers above.

use vstd::prelude::*;
use crate::entity::ServerPasswordHashAlgorithm;
use crate::ids::{AccountId, ApplicationId};

verus! {

/// Outcome of an e-mail rate limit check. A limited outcome carries the
/// time, in milliseconds, to wait.
#[derive(Clone, Copy, PartialEq, Eq, Structural, Debug)]
pub enum EmailLimitingResult {
    IpLimited(u64),
    EmailLimited(u64),
    Allowed,
}

/// Login credentials of an account.
#[derive(Debug)]
pub struct OwnedLoginCredentials {
    pub account_id: AccountId,
    pub is_email_verified: bool,
    pub password_hash: Option<String>,
    pub server_password_hash_algorithm: ServerPasswordHashAlgorithm,
}

/// Application name and ID.
#[derive(Debug)]
pub struct OwnedApplicationSummary {
    pub application_id: ApplicationId,
    pub name: String,
}

/// An application that an account has authorized.
#[derive(Debug)]
pub struct OwnedApplicationAccountConsent {
    pub application_id: ApplicationId,
    pub name: String,
    pub created_at: i64,
}

} // verus!
