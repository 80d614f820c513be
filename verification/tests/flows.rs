use metw_accounts::dto::request::{Captcha, Email};
use metw_accounts::handlers::email_verification_session::{EmailVerificationSessionHandler, RetrySignupFlow};
use metw_accounts::handlers::error::{HandlerError, ServiceError};
use metw_accounts::handlers::flow::{Next, Reply, Request};
use metw_accounts::handlers::mail::Template;
use metw_accounts::handlers::session::{AddEmailFlow, ChangePrimaryEmailFlow, SessionHandler};
use metw_accounts::ids::{AccountId, ApplicationId};
use metw_accounts::token::TokenScope;

fn email(s: &str) -> Email {
    Email { email: s.to_string() }
}

fn captcha() -> Captcha {
    Captcha { captcha: "token".to_string() }
}

#[test]
fn add_email_happy_path() {
    let h = SessionHandler;
    let (flow, next) = h.add_email(AccountId(1), email("new@example.com"), captcha());
    assert!(matches!(next, Next::Call(Request::ValidateCaptcha { ref captcha }) if captcha == "token"));
    let (flow, next) = h.add_email_step(flow, Reply::Captcha(true));
    assert!(matches!(next, Next::Call(Request::IsEmailTakenAndGetPrimaryUsername { ref email, account_id })
        if email == "new@example.com" && account_id == AccountId(1)));
    let (flow, next) = h.add_email_step(flow, Reply::EmailTakenAndPrimaryUsername(Ok(false), Ok(Some("bob".to_string()))));
    assert!(matches!(next, Next::Call(Request::CheckAndConsumeQuota { ref email }) if email == "new@example.com"));
    let (flow, next) = h.add_email_step(flow, Reply::Quota(Ok(())));
    match next {
        Next::Call(Request::Send { mail }) => {
            assert_eq!(mail.email, "new@example.com");
            match mail.template {
                Template::ConfirmNewEmail { username, email, token } => {
                    assert_eq!(username, "bob");
                    assert_eq!(email, "new@example.com");
                    assert!(matches!(token.scope, TokenScope::AddEmail { ref email } if email == "new@example.com"));
                },
                _ => panic!("wrong template"),
            }
        },
        _ => panic!("expected a send"),
    }
    let (flow, next) = h.add_email_step(flow, Reply::Sent);
    assert!(matches!(flow, AddEmailFlow::Over));
    assert!(matches!(next, Next::Finish(Ok(()))));
}

#[test]
fn add_email_stops_early() {
    let h = SessionHandler;
    let (_, next) = h.add_email(AccountId(1), email("NOT-LOWER@example.com"), captcha());
    assert!(matches!(next, Next::Finish(Err(HandlerError::Validation(..)))));

    let (flow, _) = h.add_email(AccountId(1), email("new@example.com"), captcha());
    let (_, next) = h.add_email_step(flow, Reply::Captcha(false));
    assert!(matches!(next, Next::Finish(Err(HandlerError::InvalidCaptcha))));

    let (flow, _) = h.add_email(AccountId(1), email("new@example.com"), captcha());
    let (flow, _) = h.add_email_step(flow, Reply::Captcha(true));
    let (_, next) = h.add_email_step(flow, Reply::EmailTakenAndPrimaryUsername(Ok(true), Ok(Some("bob".to_string()))));
    assert!(matches!(next, Next::Finish(Err(HandlerError::Service(ServiceError::EmailTaken)))));

    let (flow, _) = h.add_email(AccountId(1), email("new@example.com"), captcha());
    let (flow, _) = h.add_email_step(flow, Reply::Captcha(true));
    let (flow, _) = h.add_email_step(flow, Reply::EmailTakenAndPrimaryUsername(Ok(false), Ok(Some("bob".to_string()))));
    let (_, next) = h.add_email_step(flow, Reply::Quota(Err(ServiceError::EmailTaken)));
    assert!(matches!(next, Next::Finish(Err(HandlerError::Service(..)))));
}

#[test]
fn change_primary_email_goes_to_current_address() {
    let h = SessionHandler;
    let (flow, _) = h.change_primary_email(AccountId(2), email("second@example.com"), captcha());
    let (flow, next) = h.change_primary_email_step(flow, Reply::Captcha(true));
    assert!(matches!(next, Next::Call(Request::GetPrimaryEmailAndUsername { account_id }) if account_id == AccountId(2)));
    let (flow, next) = h.change_primary_email_step(
        flow,
        Reply::PrimaryEmailAndUsername(Ok(Some("first@example.com".to_string())), Ok(Some("carol".to_string()))),
    );
    assert!(matches!(next, Next::Call(Request::IsEmailOwnedBy { ref email, .. }) if email == "second@example.com"));
    assert!(matches!(flow, ChangePrimaryEmailFlow::Ownership { .. }));
    let (flow, next) = h.change_primary_email_step(flow, Reply::EmailOwned(Ok(true)));
    match next {
        Next::Call(Request::Send { mail }) => {
            assert_eq!(mail.email, "first@example.com");
            assert!(matches!(mail.template, Template::ConfirmPrimaryEmailChange { ref current_primary_email, ref new_primary_email, .. }
                if current_primary_email == "first@example.com" && new_primary_email == "second@example.com"));
        },
        _ => panic!("expected a send"),
    }
    let (_, next) = h.change_primary_email_step(flow, Reply::Sent);
    assert!(matches!(next, Next::Finish(Ok(()))));
}

#[test]
fn change_primary_email_refusals() {
    let h = SessionHandler;
    let (flow, _) = h.change_primary_email(AccountId(2), email("first@example.com"), captcha());
    let (flow, _) = h.change_primary_email_step(flow, Reply::Captcha(true));
    let (_, next) = h.change_primary_email_step(
        flow,
        Reply::PrimaryEmailAndUsername(Ok(Some("first@example.com".to_string())), Ok(Some("carol".to_string()))),
    );
    assert!(matches!(next, Next::Finish(Err(HandlerError::AlreadyPrimaryEmail))));

    let (flow, _) = h.change_primary_email(AccountId(2), email("other@example.com"), captcha());
    let (flow, _) = h.change_primary_email_step(flow, Reply::Captcha(true));
    let (flow, _) = h.change_primary_email_step(
        flow,
        Reply::PrimaryEmailAndUsername(Ok(Some("first@example.com".to_string())), Ok(Some("carol".to_string()))),
    );
    let (_, next) = h.change_primary_email_step(flow, Reply::EmailOwned(Ok(false)));
    assert!(matches!(next, Next::Finish(Err(HandlerError::Service(ServiceError::EmailNotFound)))));
}

#[test]
fn retry_signup_path() {
    let h = EmailVerificationSessionHandler;
    let application = Some((ApplicationId(4), "https://app.example/cb".to_string()));
    let (flow, _) = h.retry_signup(AccountId(3), email("me@example.com"), application, captcha());
    let (flow, next) = h.retry_signup_step(flow, Reply::Captcha(true));
    assert!(matches!(next, Next::Call(Request::IsEmailTaken { ref email }) if email == "me@example.com"));
    let (flow, next) = h.retry_signup_step(flow, Reply::EmailTaken(Ok(false)));
    assert!(matches!(next, Next::Call(Request::GetPrimaryUsername { account_id }) if account_id == AccountId(3)));
    let (flow, next) = h.retry_signup_step(flow, Reply::PrimaryUsername(Ok(Some("dave".to_string()))));
    assert!(matches!(next, Next::Call(Request::CheckAndConsumeQuota { .. })));
    let (flow, next) = h.retry_signup_step(flow, Reply::Quota(Ok(())));
    match next {
        Next::Call(Request::Send { mail }) => {
            assert!(matches!(mail.template, Template::ConfirmSignup { ref username, application: Some((id, _)), .. }
                if username == "dave" && id == ApplicationId(4)));
        },
        _ => panic!("expected a send"),
    }
    let (flow, next) = h.retry_signup_step(flow, Reply::Sent);
    assert!(matches!(flow, RetrySignupFlow::Over));
    assert!(matches!(next, Next::Finish(Ok(()))));
}

#[test]
fn retry_signup_refuses_a_taken_email() {
    let h = EmailVerificationSessionHandler;
    let (flow, _) = h.retry_signup(AccountId(3), email("me@example.com"), None, captcha());
    let (flow, _) = h.retry_signup_step(flow, Reply::Captcha(true));
    let (_, next) = h.retry_signup_step(flow, Reply::EmailTaken(Ok(true)));
    assert!(matches!(next, Next::Finish(Err(HandlerError::Service(ServiceError::EmailTaken)))));
}
