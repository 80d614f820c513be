//! Decisions of the handlers for accounts whose e-mail is not verified yet.

use vstd::prelude::*;
use crate::dto::request::{Captcha, Email};
use crate::handlers::error::{HandlerError, HandlerResult, ServiceError};
use crate::handlers::flow::{Next, Reply, Request};
use crate::handlers::authentication::signup_outgoing;
use crate::handlers::mail::{carried_token, Outgoing, Template};
use crate::handlers::session::username_found;
use crate::ids::{AccountId, ApplicationId};
use crate::token::{Token, TokenScope};

verus! {

/// Account handlers before the e-mail verification.
///
/// These handlers should be protected by e-mail verification session
/// tokens.
pub struct EmailVerificationSessionHandler;

/// The sign-up confirmation e-mail that a retry sends.
pub open spec fn retry_signup_outgoing(
    account_id: AccountId,
    email: String,
    username: String,
    application: Option<(ApplicationId, String)>,
) -> Outgoing {
    Outgoing {
        email,
        account_id,
        template: Template::ConfirmSignup {
            username,
            token: Token { sub: account_id, scope: TokenScope::CompleteSignup { email } },
            application,
        },
    }
}

/// Where a `retry_signup` request stands.
#[derive(Debug)]
pub enum RetrySignupFlow {
    /// Waiting for the CAPTCHA check.
    Captcha { account_id: AccountId, email: String, application: Option<(ApplicationId, String)> },
    /// Waiting for whether the e-mail is taken.
    Taken { account_id: AccountId, email: String, application: Option<(ApplicationId, String)> },
    /// Waiting for the primary username.
    Username { account_id: AccountId, email: String, application: Option<(ApplicationId, String)> },
    /// Waiting for the sending limits.
    Quota {
        account_id: AccountId,
        email: String,
        application: Option<(ApplicationId, String)>,
        username: String,
    },
    /// Waiting for the confirmation e-mail to be sent.
    Sending,
    /// Answered.
    Over,
}

/// The reply that a `retry_signup` flow waits for.
pub open spec fn retry_signup_expects(flow: RetrySignupFlow, reply: Reply) -> bool {
    match flow {
        RetrySignupFlow::Captcha { .. } => reply is Captcha,
        RetrySignupFlow::Taken { .. } => reply is EmailTaken,
        RetrySignupFlow::Username { .. } => reply is PrimaryUsername,
        RetrySignupFlow::Quota { .. } => reply is Quota,
        RetrySignupFlow::Sending => reply is Sent,
        RetrySignupFlow::Over => false,
    }
}

/// What a `retry_signup` flow does with the reply it waits for.
pub open spec fn retry_signup_next(flow: RetrySignupFlow, reply: Reply) -> (RetrySignupFlow, Next) {
    match (flow, reply) {
        (RetrySignupFlow::Captcha { account_id, email, application }, Reply::Captcha(valid)) => if valid {
            (
                RetrySignupFlow::Taken { account_id, email, application },
                Next::Call(Request::IsEmailTaken { email }),
            )
        } else {
            (RetrySignupFlow::Over, Next::Finish(Err(HandlerError::InvalidCaptcha)))
        },
        (RetrySignupFlow::Taken { account_id, email, application }, Reply::EmailTaken(taken)) => match taken {
            Err(e) => (RetrySignupFlow::Over, Next::Finish(Err(HandlerError::Service(e)))),
            Ok(true) => (RetrySignupFlow::Over, Next::Finish(Err(HandlerError::Service(ServiceError::EmailTaken)))),
            Ok(false) => (
                RetrySignupFlow::Username { account_id, email, application },
                Next::Call(Request::GetPrimaryUsername { account_id }),
            ),
        },
        (RetrySignupFlow::Username { account_id, email, application }, Reply::PrimaryUsername(found)) => {
            match username_found(found) {
                Err(e) => (RetrySignupFlow::Over, Next::Finish(Err(e))),
                Ok(username) => (
                    RetrySignupFlow::Quota { account_id, email, application, username },
                    Next::Call(Request::CheckAndConsumeQuota { email }),
                ),
            }
        },
        (RetrySignupFlow::Quota { account_id, email, application, username }, Reply::Quota(q)) => match q {
            Err(e) => (RetrySignupFlow::Over, Next::Finish(Err(HandlerError::Service(e)))),
            Ok(()) => (
                RetrySignupFlow::Sending,
                Next::Call(Request::Send { mail: retry_signup_outgoing(account_id, email, username, application) }),
            ),
        },
        (RetrySignupFlow::Sending, Reply::Sent) => (RetrySignupFlow::Over, Next::Finish(Ok(()))),
        _ => (RetrySignupFlow::Over, Next::Finish(Ok(()))),
    }
}

impl EmailVerificationSessionHandler {
    /// Starts resending the sign-up e-mail to `email_dto`'s address: the
    /// e-mail is validated, then the CAPTCHA is checked. `application` is
    /// where the confirmation returns to, if the sign-up came from one.
    pub fn retry_signup(
        &self,
        account_id: AccountId,
        email_dto: Email,
        application: Option<(ApplicationId, String)>,
        captcha: Captcha,
    ) -> (r: (RetrySignupFlow, Next))
        ensures
            email_dto.errors_under(None).len() == 0 ==> r == (
                RetrySignupFlow::Captcha { account_id, email: email_dto.email, application },
                Next::Call(Request::ValidateCaptcha { captcha: captcha.captcha }),
            ),
            email_dto.errors_under(None).len() > 0 ==> r.0 is Over && (r.1 matches Next::Finish(
                Err(HandlerError::Validation(e)),
            ) && e.errors@ == email_dto.errors_under(None)),
    {
        match email_dto.validate() {
            Err(e) => (RetrySignupFlow::Over, Next::Finish(Err(HandlerError::Validation(e)))),
            Ok(()) => (
                RetrySignupFlow::Captcha { account_id, email: email_dto.email, application },
                Next::Call(Request::ValidateCaptcha { captcha: captcha.captcha }),
            ),
        }
    }

    /// Takes the reply that the `retry_signup` flow waits for, and goes on:
    /// a rejected CAPTCHA, a taken e-mail, a failed lookup, an account with
    /// no username or an exhausted limit answer with an error; otherwise
    /// the confirmation e-mail is sent and the request succeeds.
    pub fn retry_signup_step(&self, flow: RetrySignupFlow, reply: Reply) -> (r: (RetrySignupFlow, Next))
        requires
            retry_signup_expects(flow, reply),
        ensures
            r == retry_signup_next(flow, reply),
    {
        match flow {
            RetrySignupFlow::Captcha { account_id, email, application } => match reply {
                Reply::Captcha(valid) => if valid {
                    let request = Request::IsEmailTaken { email: email.clone() };
                    (RetrySignupFlow::Taken { account_id, email, application }, Next::Call(request))
                } else {
                    (RetrySignupFlow::Over, Next::Finish(Err(HandlerError::InvalidCaptcha)))
                },
                _ => (RetrySignupFlow::Over, Next::Finish(Ok(()))),
            },
            RetrySignupFlow::Taken { account_id, email, application } => match reply {
                Reply::EmailTaken(taken) => match self.retry_signup_email(taken) {
                    Err(e) => (RetrySignupFlow::Over, Next::Finish(Err(e))),
                    Ok(()) => (
                        RetrySignupFlow::Username { account_id, email, application },
                        Next::Call(Request::GetPrimaryUsername { account_id }),
                    ),
                },
                _ => (RetrySignupFlow::Over, Next::Finish(Ok(()))),
            },
            RetrySignupFlow::Username { account_id, email, application } => match reply {
                Reply::PrimaryUsername(found) => match self.retry_signup_username(found) {
                    Err(e) => (RetrySignupFlow::Over, Next::Finish(Err(e))),
                    Ok(username) => {
                        let request = Request::CheckAndConsumeQuota { email: email.clone() };
                        (RetrySignupFlow::Quota { account_id, email, application, username }, Next::Call(request))
                    },
                },
                _ => (RetrySignupFlow::Over, Next::Finish(Ok(()))),
            },
            RetrySignupFlow::Quota { account_id, email, application, username } => match reply {
                Reply::Quota(q) => match q {
                    Err(e) => (RetrySignupFlow::Over, Next::Finish(Err(HandlerError::Service(e)))),
                    Ok(()) => {
                        let mail = self.retry_signup_mail(account_id, email, username, application);
                        (RetrySignupFlow::Sending, Next::Call(Request::Send { mail }))
                    },
                },
                _ => (RetrySignupFlow::Over, Next::Finish(Ok(()))),
            },
            RetrySignupFlow::Sending => (RetrySignupFlow::Over, Next::Finish(Ok(()))),
            RetrySignupFlow::Over => (RetrySignupFlow::Over, Next::Finish(Ok(()))),
        }
    }

    /// Decides on whether the e-mail of a sign-up retry is taken: a taken
    /// e-mail stops it.
    pub fn retry_signup_email(&self, email_taken: Result<bool, ServiceError>) -> (r: HandlerResult<()>)
        ensures
            r == match email_taken {
                Err(e) => Err::<(), HandlerError>(HandlerError::Service(e)),
                Ok(true) => Err(HandlerError::Service(ServiceError::EmailTaken)),
                Ok(false) => Ok(()),
            },
    {
        match email_taken {
            Err(e) => Err(HandlerError::Service(e)),
            Ok(true) => Err(HandlerError::Service(ServiceError::EmailTaken)),
            Ok(false) => Ok(()),
        }
    }

    /// Decides on the primary username of the account: a sign-up retry
    /// needs one.
    pub fn retry_signup_username(&self, primary_username: Result<Option<String>, ServiceError>) -> (r: HandlerResult<String>)
        ensures
            r == username_found(primary_username),
    {
        match primary_username {
            Err(e) => Err(HandlerError::Service(e)),
            Ok(None) => Err(HandlerError::UnexpectedError("account with no username")),
            Ok(Some(u)) => Ok(u),
        }
    }

    /// The sign-up confirmation e-mail that a retry sends to `email`,
    /// carrying a token that completes the sign-up and, if the sign-up came
    /// from an application, where to return.
    pub fn retry_signup_mail(
        &self,
        account_id: AccountId,
        email: String,
        username: String,
        application: Option<(ApplicationId, String)>,
    ) -> (r: Outgoing)
        ensures
            r == retry_signup_outgoing(account_id, email, username, application),
            r.email == email,
            carried_token(r.template) == (Token { sub: account_id, scope: TokenScope::CompleteSignup { email } }),
    {
        let token = Token { sub: account_id, scope: TokenScope::CompleteSignup { email: email.clone() } };
        let template = Template::ConfirmSignup { username, token, application };
        Outgoing { email, account_id, template }
    }
}

/// `retry_signup` asks to use the sending limits only right after learning
/// the account's username, and sends its e-mail only right after the
/// limits allowed it.
pub proof fn law_retry_signup_sends_after_limits(flow: RetrySignupFlow, reply: Reply)
    requires
        retry_signup_expects(flow, reply),
    ensures
        retry_signup_next(flow, reply).1 matches Next::Call(Request::CheckAndConsumeQuota { .. }) ==> flow is Username
            && reply matches Reply::PrimaryUsername(Ok(Some(_))),
        retry_signup_next(flow, reply).1 matches Next::Call(Request::Send { .. }) ==> flow is Quota
            && reply matches Reply::Quota(Ok(())),
        retry_signup_next(flow, reply).1 matches Next::Finish(Ok(())) ==> flow is Sending,
{
}

/// A sign-up retry sends the very confirmation that the first sign-up sent:
/// to the retried address, with a token, issued for the account, that
/// completes the sign-up of that address and nothing else; only the
/// optional return to an application may differ.
pub proof fn law_retry_signup_mail_completes_signup(
    account_id: AccountId,
    email: String,
    username: String,
    application: Option<(ApplicationId, String)>,
)
    ensures
        ({
            let retry = retry_signup_outgoing(account_id, email, username, application);
            let first = signup_outgoing(account_id, email, username);
            &&& retry.email == email
            &&& retry.email == first.email
            &&& carried_token(retry.template) == carried_token(first.template)
            &&& carried_token(retry.template) == (Token {
                sub: account_id,
                scope: TokenScope::CompleteSignup { email },
            })
            &&& retry.template is ConfirmSignup
        }),
{
}

/// Every call and e-mail of a sign-up retry is about the retried address:
/// its takenness and limits are checked, and the mail goes to it with a
/// token, for the flow's account, that completes its sign-up.
pub proof fn law_retry_signup_acts_on_the_retried_address(flow: RetrySignupFlow, reply: Reply)
    requires
        retry_signup_expects(flow, reply),
    ensures
        retry_signup_next(flow, reply).1 matches Next::Call(Request::IsEmailTaken { email: q }) ==> (
        flow matches RetrySignupFlow::Captcha { email, .. } && q == email),
        retry_signup_next(flow, reply).1 matches Next::Call(Request::CheckAndConsumeQuota { email: q }) ==> (
        flow matches RetrySignupFlow::Username { email, .. } && q == email),
        retry_signup_next(flow, reply).1 matches Next::Call(Request::Send { mail }) ==> (flow matches RetrySignupFlow::Quota {
            account_id,
            email,
            ..
        } && mail.email == email && carried_token(mail.template) == (Token {
            sub: account_id,
            scope: TokenScope::CompleteSignup { email },
        })),
{
}

} // verus!
