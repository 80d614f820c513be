//! The calls that a multi-step handler asks its caller to make, the
//! replies it takes back, and what it does next.

use vstd::prelude::*;
use crate::dto::request::Signup;
use crate::handlers::error::{HandlerResult, ServiceError};
use crate::handlers::mail::Outgoing;
use crate::ids::AccountId;

verus! {

/// A call to make on the handler's behalf.
#[derive(Debug)]
pub enum Request {
    /// Check the CAPTCHA.
    ValidateCaptcha { captcha: String },
    /// Ask whether the e-mail belongs to an account.
    IsEmailTaken { email: String },
    /// Get the primary username of the account.
    GetPrimaryUsername { account_id: AccountId },
    /// Ask whether the e-mail belongs to an account and, at the same time,
    /// get the primary username of this one.
    IsEmailTakenAndGetPrimaryUsername { email: String, account_id: AccountId },
    /// Get the primary e-mail and the primary username of the account, at
    /// the same time.
    GetPrimaryEmailAndUsername { account_id: AccountId },
    /// Ask whether the e-mail is one of the account's.
    IsEmailOwnedBy { account_id: AccountId, email: String },
    /// Check and use the sending limits of the e-mail, from the requesting
    /// IP.
    CheckAndConsumeQuota { email: String },
    /// Create the account of a validated sign-up; fails if its username
    /// or e-mail is taken.
    CreateAccount { signup: Signup },
    /// Send the e-mail, signing the token it carries.
    Send { mail: Outgoing },
}

/// The outcome of a call.
#[derive(Debug)]
pub enum Reply {
    Captcha(bool),
    EmailTaken(Result<bool, ServiceError>),
    PrimaryUsername(Result<Option<String>, ServiceError>),
    EmailTakenAndPrimaryUsername(Result<bool, ServiceError>, Result<Option<String>, ServiceError>),
    PrimaryEmailAndUsername(Result<Option<String>, ServiceError>, Result<Option<String>, ServiceError>),
    EmailOwned(Result<bool, ServiceError>),
    Quota(Result<(), ServiceError>),
    AccountCreated(Result<AccountId, ServiceError>),
    Sent,
}

/// What a handler does next: ask for a call, or answer.
#[derive(Debug)]
pub enum Next {
    Call(Request),
    Finish(HandlerResult<()>),
}

} // verus!
