//! Token claims and the decoded form that the revocation state reads.

use vstd::prelude::*;
use crate::ids::AccountId;

verus! {

/// Kind of a token scope, without the data that some scopes carry. Tokens
/// are revoked per account and kind.
#[derive(Clone, Copy, PartialEq, Eq, Structural, Debug, Hash)]
pub enum ScopeKind {
    Session,
    EmailVerificationSession,
    AddEmail,
    ChangePrimaryEmail,
    CompleteSignup,
}

/// What a token allows its bearer to do.
#[derive(Debug)]
pub enum TokenScope {
    /// A logged-in session of an account whose e-mail is verified.
    Session,
    /// A logged-in session of an account whose e-mail is not verified yet.
    EmailVerificationSession,
    /// Adds `email` to the account.
    AddEmail { email: String },
    /// Moves the primary e-mail of the account.
    ChangePrimaryEmail { current_primary_email: String, new_primary_email: String },
    /// Completes a sign-up by verifying `email`.
    CompleteSignup { email: String },
}

impl TokenScope {
    /// The kind of the scope.
    pub open spec fn spec_kind(&self) -> ScopeKind {
        match self {
            TokenScope::Session => ScopeKind::Session,
            TokenScope::EmailVerificationSession => ScopeKind::EmailVerificationSession,
            TokenScope::AddEmail { .. } => ScopeKind::AddEmail,
            TokenScope::ChangePrimaryEmail { .. } => ScopeKind::ChangePrimaryEmail,
            TokenScope::CompleteSignup { .. } => ScopeKind::CompleteSignup,
        }
    }

    /// The kind of the scope.
    pub fn scope_kind(&self) -> (r: ScopeKind)
        ensures
            r == self.spec_kind(),
    {
        match self {
            TokenScope::Session => ScopeKind::Session,
            TokenScope::EmailVerificationSession => ScopeKind::EmailVerificationSession,
            TokenScope::AddEmail { .. } => ScopeKind::AddEmail,
            TokenScope::ChangePrimaryEmail { .. } => ScopeKind::ChangePrimaryEmail,
            TokenScope::CompleteSignup { .. } => ScopeKind::CompleteSignup,
        }
    }
}

/// The two scopes are of the same variant, whatever data they carry.
pub open spec fn same_variant(s1: TokenScope, s2: TokenScope) -> bool {
    ||| s1 is Session && s2 is Session
    ||| s1 is EmailVerificationSession && s2 is EmailVerificationSession
    ||| s1 is AddEmail && s2 is AddEmail
    ||| s1 is ChangePrimaryEmail && s2 is ChangePrimaryEmail
    ||| s1 is CompleteSignup && s2 is CompleteSignup
}

/// Each scope variant has a kind of its own: two scopes share a kind
/// exactly when they are of the same variant, and each variant's kind is
/// the one of its name.
pub proof fn law_scope_kinds_distinct(s1: TokenScope, s2: TokenScope)
    ensures
        (s1.spec_kind() == s2.spec_kind()) <==> same_variant(s1, s2),
        s1.spec_kind() == ScopeKind::Session <==> s1 is Session,
        s1.spec_kind() == ScopeKind::EmailVerificationSession <==> s1 is EmailVerificationSession,
        s1.spec_kind() == ScopeKind::AddEmail <==> s1 is AddEmail,
        s1.spec_kind() == ScopeKind::ChangePrimaryEmail <==> s1 is ChangePrimaryEmail,
        s1.spec_kind() == ScopeKind::CompleteSignup <==> s1 is CompleteSignup,
{
}

/// Claims of a token to be signed.
#[derive(Debug)]
pub struct Token {
    /// The account the token is issued for.
    pub sub: AccountId,
    /// What the token allows.
    pub scope: TokenScope,
}

/// A token whose signature has been checked.
#[derive(Debug)]
pub struct DecodedToken {
    /// The account the token was issued for.
    pub id: AccountId,
    /// What the token allows.
    pub scope: TokenScope,
    /// Expiry instant, in microseconds since the Unix epoch.
    pub expires_at: i64,
    /// Issue instant, in microseconds since the Unix epoch.
    pub issued_at: i64,
    /// Digest that identifies this very token.
    pub fingerprint: Vec<u8>,
}

} // verus!
