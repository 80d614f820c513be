//! Response bodies that the handlers return.

use vstd::prelude::*;
use crate::entity::ClientPasswordKdf;
use crate::ids::{AccountId, ApplicationId};

verus! {

/// Account entity returned to the user after authentication.
#[derive(Debug)]
pub struct Account {
    /// Unique account id.
    pub account_id: AccountId,
    /// The user's primary username, if it exists.
    pub username: Option<String>,
    /// Primary e-mail address, if it exists.
    pub email: Option<String>,
    /// Non-expiring username aliases.
    pub username_aliases: Vec<String>,
    /// Secondary e-mails.
    pub secondary_emails: Vec<String>,
}

/// Key derivation functions used in the account.
#[derive(Debug)]
pub struct AccountKdf {
    /// Key derivation applied to the login password, client-side.
    pub client_password_kdf: ClientPasswordKdf,
}

/// Base64-encoded, usually returned after sign up or log in.
#[derive(Debug)]
pub struct Token {
    pub token: String,
}

/// Application name and ID.
#[derive(Debug)]
pub struct ApplicationSummary {
    pub application_id: ApplicationId,
    pub name: String,
}

/// Newly created application.
#[derive(Debug)]
pub struct CreatedApplication {
    pub application_id: ApplicationId,
    pub name: String,
    pub client_secret: String,
}

/// The new secret after the client secret roll.
#[derive(Debug)]
pub struct RotatedClientSecret {
    pub client_secret: String,
}

/// Application consent.
#[derive(Debug)]
pub struct ApplicationConsent {
    pub application_id: ApplicationId,
    pub name: String,
    pub created_at_timestamp: String,
}

/// Authorization status of the application.
#[derive(Debug)]
pub struct ApplicationConsentStatus {
    pub is_authorized: bool,
}

/// Response for a successful authorization code exchange.
#[derive(Debug)]
pub struct AuthorizationCodeExchangeResult {
    pub account_id: AccountId,
}

/// Authorization code.
#[derive(Debug)]
pub struct AuthorizationCode {
    pub authorization_code: String,
}

} // verus!
