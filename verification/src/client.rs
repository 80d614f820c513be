//! External integrations: the e-mail provider and the CAPTCHA check.

use vstd::prelude::*;
use crate::handlers::mail::Template;
use crate::ids::AccountId;

verus! {

/// Sends e-mails.
pub trait EmailClient {
    /// Sends the e-mail built from `template` to `email`, on behalf of the
    /// account.
    fn send(&self, email: String, id: AccountId, template: Template);
}

/// Validates CAPTCHAs.
pub trait CaptchaClient {
    /// Validates a CAPTCHA. Returns true if validation succeeds.
    fn validate(&self, id: String) -> bool;
}

/// Mock CAPTCHA client implementation, which accepts any request.
pub struct MockCaptchaClientImpl;

impl MockCaptchaClientImpl {
    /// Creates a new mock CAPTCHA client, which accepts any request.
    pub fn boxed_new() -> (r: Box<Self>)
        ensures
            *r == MockCaptchaClientImpl,
    {
        Box::new(MockCaptchaClientImpl)
    }
}

impl CaptchaClient for MockCaptchaClientImpl {
    /// Accepts every CAPTCHA.
    fn validate(&self, _id: String) -> (r: bool)
        ensures
            r,
    {
        true
    }
}

} // verus!
