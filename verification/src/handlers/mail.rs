//! E-mails that the handlers send, with the claims of the tokens they carry.

use vstd::prelude::*;
use crate::ids::{AccountId, ApplicationId};
use crate::token::Token;

verus! {

/// An e-mail template. `token` holds the claims of the token that the
/// e-mail carries; the sender signs them.
#[derive(Debug)]
pub enum Template {
    /// Confirms a sign-up, optionally returning to an application after.
    ConfirmSignup { username: String, token: Token, application: Option<(ApplicationId, String)> },
    /// Confirms adding `email` to the account.
    ConfirmNewEmail { username: String, email: String, token: Token },
    /// Confirms moving the primary e-mail, sent to the current one.
    ConfirmPrimaryEmailChange {
        username: String,
        current_primary_email: String,
        new_primary_email: String,
        token: Token,
    },
}

/// The token that an e-mail of this template carries.
pub open spec fn carried_token(t: Template) -> Token {
    match t {
        Template::ConfirmSignup { token, .. } => token,
        Template::ConfirmNewEmail { token, .. } => token,
        Template::ConfirmPrimaryEmailChange { token, .. } => token,
    }
}

/// An e-mail to send: the address, the account it concerns, and the
/// template.
#[derive(Debug)]
pub struct Outgoing {
    pub email: String,
    pub account_id: AccountId,
    pub template: Template,
}

} // verus!
