use metw_accounts::dto::repo::{OwnedApplicationAccountConsent, OwnedApplicationSummary};
use metw_accounts::dto::request::{
    ClientDerivedPassword, Email, ErrorCode, Field, FieldError, LoginWithEmail, LoginWithUsername, Signup, ValidationErrors,
};
use metw_accounts::dto::response::Account;
use metw_accounts::dto::service::{CreatedApplication, Login};
use metw_accounts::handlers::application_access::ApplicationAccessHandler;
use metw_accounts::handlers::application_management::ApplicationManagementHandler;
use metw_accounts::handlers::authentication::{AuthenticationHandler, SignupFlow, SignupNext};
use metw_accounts::handlers::authorization::{AuthAction, AuthNext, AuthorizationHandler};
use metw_accounts::handlers::flow::{Reply, Request};
use metw_accounts::handlers::email_verification_session::EmailVerificationSessionHandler;
use metw_accounts::handlers::error::{lift, require_captcha, validated, HandlerError, ServiceError};
use metw_accounts::handlers::mail::Template;
use metw_accounts::handlers::session::{seconds_of, SessionHandler};
use metw_accounts::ids::{AccountId, ApplicationId};
use metw_accounts::repo::error::RepoError;
use metw_accounts::token::{DecodedToken, TokenScope};

fn decoded(scope: TokenScope) -> DecodedToken {
    DecodedToken { id: AccountId(7), scope, expires_at: 10, issued_at: 1, fingerprint: vec![1, 2] }
}

#[test]
fn session_middleware_accepts_only_its_scope() {
    assert_eq!(AuthenticationHandler.auth_session(Ok(decoded(TokenScope::Session))).unwrap(), AccountId(7));
    assert!(matches!(
        AuthenticationHandler.auth_session(Ok(decoded(TokenScope::EmailVerificationSession))),
        Err(HandlerError::Unauthorized)
    ));
    assert_eq!(
        AuthenticationHandler.auth_email_verification_session(Ok(decoded(TokenScope::EmailVerificationSession))).unwrap(),
        AccountId(7)
    );
    assert!(matches!(
        AuthenticationHandler.auth_email_verification_session(Ok(decoded(TokenScope::Session))),
        Err(HandlerError::Unauthorized)
    ));
    assert!(matches!(
        AuthenticationHandler.auth_session(Err(ServiceError::InvalidJwt)),
        Err(HandlerError::Service(ServiceError::InvalidJwt))
    ));
}

#[test]
fn login_scope_follows_email_verification() {
    let verified = AuthenticationHandler.login(Login { account_id: AccountId(3), is_email_verified: true });
    assert_eq!(verified.sub, AccountId(3));
    assert!(matches!(verified.scope, TokenScope::Session));
    let unverified = AuthenticationHandler.login(Login { account_id: AccountId(3), is_email_verified: false });
    assert!(matches!(unverified.scope, TokenScope::EmailVerificationSession));
}

fn signup_dto(username: &str, email: &str) -> Signup {
    Signup {
        username: username.to_string(),
        email: email.to_string(),
        password: ClientDerivedPassword {
            base64_hash: "h".to_string(),
            pbkdf2_salt: "s".to_string(),
            pbkdf2_iterations: 1,
            pbkdf2_length: 32,
        },
    }
}

#[test]
fn signup_sends_confirmation_and_answers_verification_session() {
    let (flow, next) = AuthenticationHandler.signup(signup_dto("bob", "bob@example.com"));
    match next {
        SignupNext::Call(Request::CreateAccount { signup }) => assert_eq!(signup.username, "bob"),
        _ => panic!("expected the account to be created"),
    }
    let (flow, next) = AuthenticationHandler.signup_step(flow, Reply::AccountCreated(Ok(AccountId(11))));
    match next {
        SignupNext::Call(Request::Send { mail }) => {
            assert_eq!(mail.email, "bob@example.com");
            assert_eq!(mail.account_id, AccountId(11));
            match mail.template {
                Template::ConfirmSignup { username, token, application } => {
                    assert_eq!(username, "bob");
                    assert_eq!(token.sub, AccountId(11));
                    assert!(matches!(token.scope, TokenScope::CompleteSignup { email } if email == "bob@example.com"));
                    assert!(application.is_none());
                },
                _ => panic!("wrong template"),
            }
        },
        _ => panic!("expected a send"),
    }
    let (flow, next) = AuthenticationHandler.signup_step(flow, Reply::Sent);
    assert!(matches!(flow, SignupFlow::Over));
    match next {
        SignupNext::Finish(Ok(session)) => {
            assert_eq!(session.sub, AccountId(11));
            assert!(matches!(session.scope, TokenScope::EmailVerificationSession));
        },
        _ => panic!("expected a session"),
    }
}

#[test]
fn signup_refusals_send_nothing() {
    let (_, next) = AuthenticationHandler.signup(signup_dto("_bad", "bob@example.com"));
    assert!(matches!(next, SignupNext::Finish(Err(HandlerError::Validation(..)))));
    let (_, next) = AuthenticationHandler.signup(signup_dto("bob", "no-at-sign"));
    assert!(matches!(next, SignupNext::Finish(Err(HandlerError::Validation(..)))));

    let (flow, _) = AuthenticationHandler.signup(signup_dto("bob", "bob@example.com"));
    let (flow, next) = AuthenticationHandler.signup_step(flow, Reply::AccountCreated(Err(ServiceError::UsernameTaken)));
    assert!(matches!(flow, SignupFlow::Over));
    assert!(matches!(next, SignupNext::Finish(Err(HandlerError::Service(ServiceError::UsernameTaken)))));

    let (flow, _) = AuthenticationHandler.signup(signup_dto("bob", "bob@example.com"));
    let (_, next) = AuthenticationHandler.signup_step(flow, Reply::AccountCreated(Err(ServiceError::EmailTaken)));
    assert!(matches!(next, SignupNext::Finish(Err(HandlerError::Service(ServiceError::EmailTaken)))));
}

#[test]
fn authorization_stops_at_the_first_failing_call() {
    let scope = TokenScope::AddEmail { email: "n@x.y".to_string() };
    let (flow, next) = AuthorizationHandler.auth_start(Ok(decoded(scope)));
    assert!(matches!(next, AuthNext::Call(AuthAction::CheckAndRevokeToken)));
    let (flow, next) = AuthorizationHandler.auth_step(flow, Ok(()));
    assert!(matches!(next, AuthNext::Call(AuthAction::ClearEmailLimit { .. })));
    let (_, next) = AuthorizationHandler.auth_step(flow, Err(ServiceError::TokenRevoked));
    assert!(matches!(next, AuthNext::Finish(Err(HandlerError::Service(ServiceError::TokenRevoked)))));

    let scope = TokenScope::ChangePrimaryEmail {
        current_primary_email: "a@x.y".to_string(),
        new_primary_email: "b@x.y".to_string(),
    };
    let (mut flow, mut next) = AuthorizationHandler.auth_start(Ok(decoded(scope)));
    let mut calls = 0;
    while let AuthNext::Call(_) = next {
        calls += 1;
        (flow, next) = AuthorizationHandler.auth_step(flow, Ok(()));
    }
    assert_eq!(calls, 2);
    assert!(matches!(next, AuthNext::Finish(Ok(()))));

    let (_, next) = AuthorizationHandler.auth_start(Ok(decoded(TokenScope::Session)));
    assert!(matches!(next, AuthNext::Finish(Err(HandlerError::Unauthorized))));
}

#[test]
fn forwarding_handlers() {
    use_login();
    assert!(matches!(AuthenticationHandler.logout(Err(ServiceError::InvalidJwt)), Err(HandlerError::Service(ServiceError::InvalidJwt))));
    assert!(AuthenticationHandler.logout(Ok(())).is_ok());
    let h = SessionHandler;
    assert_eq!(h.remove_email(Email { email: "a@x.y".to_string() }).unwrap(), "a@x.y");
    assert!(matches!(h.remove_email(Email { email: "A@x.y".to_string() }), Err(HandlerError::Validation(..))));
    assert!(matches!(h.get_current_account(Err(ServiceError::AccountNotFound)), Err(HandlerError::Service(ServiceError::AccountNotFound))));
    let m = ApplicationManagementHandler;
    assert_eq!(m.list_redirect_urls(Ok(vec!["u".to_string()])).unwrap(), vec!["u".to_string()]);
    assert!(m.delete(Ok(())).is_ok());
}

fn use_login() {
    let ok = AuthenticationHandler.login_with_username(LoginWithUsername {
        username: "bob".to_string(),
        client_password_hash: "h".to_string(),
    });
    assert!(ok.is_ok());
    let bad = AuthenticationHandler.login_with_email(LoginWithEmail {
        email: "invalid.email".to_string(),
        client_password_hash: "h".to_string(),
    });
    assert!(matches!(bad, Err(HandlerError::Validation(..))));
    let token = AuthenticationHandler.logged_in(Ok(Login { account_id: AccountId(2), is_email_verified: true })).unwrap();
    assert!(matches!(token.scope, TokenScope::Session));
    assert!(matches!(
        AuthenticationHandler.logged_in(Err(ServiceError::AccountNotFound)),
        Err(HandlerError::Service(ServiceError::AccountNotFound))
    ));
}

#[test]
fn authorization_plans() {
    assert!(matches!(AuthorizationHandler.auth(Ok(decoded(TokenScope::Session))), Err(HandlerError::Unauthorized)));
    assert!(matches!(
        AuthorizationHandler.auth(Ok(decoded(TokenScope::EmailVerificationSession))),
        Err(HandlerError::Unauthorized)
    ));
    assert!(matches!(
        AuthorizationHandler.auth(Err(ServiceError::TokenRevoked)),
        Err(HandlerError::Service(ServiceError::TokenRevoked))
    ));

    let plan = AuthorizationHandler.auth(Ok(decoded(TokenScope::AddEmail { email: "n@x.y".to_string() }))).unwrap();
    assert_eq!(plan.len(), 4);
    assert!(matches!(plan[0], AuthAction::CheckAndRevokeToken));
    assert!(matches!(&plan[1], AuthAction::ClearEmailLimit { email } if email == "n@x.y"));
    assert!(matches!(&plan[2], AuthAction::RefundIpQuota { email } if email == "n@x.y"));
    assert!(matches!(&plan[3], AuthAction::AddEmail { account_id, email } if *account_id == AccountId(7) && email == "n@x.y"));

    let plan = AuthorizationHandler
        .auth(Ok(decoded(TokenScope::ChangePrimaryEmail {
            current_primary_email: "a@x.y".to_string(),
            new_primary_email: "b@x.y".to_string(),
        })))
        .unwrap();
    assert_eq!(plan.len(), 2);
    assert!(matches!(plan[0], AuthAction::CheckAndRevokeAccountTokensWithScope));
    assert!(matches!(&plan[1], AuthAction::ChangePrimaryEmail { current_primary_email, new_primary_email, .. }
        if current_primary_email == "a@x.y" && new_primary_email == "b@x.y"));

    let plan = AuthorizationHandler.auth(Ok(decoded(TokenScope::CompleteSignup { email: "s@x.y".to_string() }))).unwrap();
    assert_eq!(plan.len(), 4);
    assert!(matches!(plan[0], AuthAction::CheckAndRevokeAccountTokens));
    assert!(matches!(&plan[3], AuthAction::CompleteSignup { email, .. } if email == "s@x.y"));
}

#[test]
fn add_email_lookups() {
    let h = SessionHandler;
    assert!(matches!(
        h.add_email_lookup(Ok(true), Ok(Some("u".to_string()))),
        Err(HandlerError::Service(ServiceError::EmailTaken))
    ));
    assert!(matches!(
        h.add_email_lookup(Ok(false), Ok(None)),
        Err(HandlerError::UnexpectedError("account with no username"))
    ));
    assert!(matches!(
        h.add_email_lookup(Err(ServiceError::Repo(RepoError::Internal("x"))), Ok(Some("u".to_string()))),
        Err(HandlerError::Service(ServiceError::Repo(..)))
    ));
    assert_eq!(h.add_email_lookup(Ok(false), Ok(Some("u".to_string()))).unwrap(), "u");

    let mail = h.add_email_mail(AccountId(4), "new@x.y".to_string(), "u".to_string());
    assert_eq!(mail.email, "new@x.y");
    assert!(matches!(mail.template, Template::ConfirmNewEmail { ref email, ref token, .. }
        if email == "new@x.y" && matches!(&token.scope, TokenScope::AddEmail { email } if email == "new@x.y")));
}

#[test]
fn change_primary_email_lookups() {
    let h = SessionHandler;
    let new = "b@x.y".to_string();
    assert!(matches!(
        h.change_primary_email_lookup(&new, Ok(None), Ok(Some("u".to_string()))),
        Err(HandlerError::UnexpectedError("account with no primary email"))
    ));
    assert!(matches!(
        h.change_primary_email_lookup(&new, Ok(Some("a@x.y".to_string())), Ok(None)),
        Err(HandlerError::UnexpectedError("account with no username"))
    ));
    assert!(matches!(
        h.change_primary_email_lookup(&new, Ok(Some("b@x.y".to_string())), Ok(Some("u".to_string()))),
        Err(HandlerError::AlreadyPrimaryEmail)
    ));
    let (current, username) = h.change_primary_email_lookup(&new, Ok(Some("a@x.y".to_string())), Ok(Some("u".to_string()))).unwrap();
    assert_eq!((current.as_str(), username.as_str()), ("a@x.y", "u"));
    assert!(matches!(h.change_primary_email_owned(Ok(false)), Err(HandlerError::Service(ServiceError::EmailNotFound))));
    assert!(h.change_primary_email_owned(Ok(true)).is_ok());
    let mail = h.change_primary_email_mail(AccountId(4), current, new, username);
    // Sent to the current primary address.
    assert_eq!(mail.email, "a@x.y");
}

#[test]
fn consents_carry_seconds_as_text() {
    let h = SessionHandler;
    let consents = vec![
        OwnedApplicationAccountConsent { application_id: ApplicationId(1), name: "one".to_string(), created_at: 1_700_000_000_123_456 },
        OwnedApplicationAccountConsent { application_id: ApplicationId(2), name: "two".to_string(), created_at: -1 },
    ];
    let out = h.get_application_consents(Ok(consents)).unwrap();
    assert_eq!(out[0].created_at_timestamp, "1700000000");
    assert_eq!(out[0].name, "one");
    assert_eq!(out[1].created_at_timestamp, "-1");
    assert_eq!(seconds_of(-1_000_000), -1);
    assert_eq!(seconds_of(-1_000_001), -2);
    assert_eq!(seconds_of(999_999), 0);
    assert_eq!(seconds_of(i64::MIN), i64::MIN.div_euclid(1_000_000));
}

#[test]
fn owned_applications_and_creation() {
    let h = SessionHandler;
    let list = vec![OwnedApplicationSummary { application_id: ApplicationId(3), name: "three".to_string() }];
    let out = h.get_owned_applications(Ok(list)).unwrap();
    assert_eq!(out.len(), 1);
    assert_eq!(out[0].application_id, ApplicationId(3));
    assert_eq!(out[0].name, "three");
    let created = h
        .create_application("mine".to_string(), Ok(CreatedApplication { application_id: ApplicationId(8), client_secret: "s3cr3t".to_string() }))
        .unwrap();
    assert_eq!((created.application_id, created.name.as_str(), created.client_secret.as_str()), (ApplicationId(8), "mine", "s3cr3t"));
}

#[test]
fn consent_gates() {
    let h = SessionHandler;
    assert!(matches!(h.authorize_application_redirect(Ok(false)), Err(HandlerError::Service(ServiceError::InvalidRedirectUrl))));
    assert!(matches!(h.create_authorization_code_consent(Ok(false)), Err(HandlerError::Unauthorized)));
    assert_eq!(h.create_authorization_code(Ok("code".to_string())).unwrap().authorization_code, "code");
    assert!(h.get_application_consent_status(Ok(true)).unwrap().is_authorized);
    assert!(!h.get_application_consent_status(Ok(false)).unwrap().is_authorized);
}

#[test]
fn retry_signup_steps() {
    let h = EmailVerificationSessionHandler;
    assert!(matches!(h.retry_signup_email(Ok(true)), Err(HandlerError::Service(ServiceError::EmailTaken))));
    assert!(h.retry_signup_email(Ok(false)).is_ok());
    assert!(matches!(h.retry_signup_username(Ok(None)), Err(HandlerError::UnexpectedError(..))));
    let mail = h.retry_signup_mail(AccountId(2), "e@x.y".to_string(), "u".to_string(), Some((ApplicationId(5), "https://cb".to_string())));
    assert!(matches!(mail.template, Template::ConfirmSignup { application: Some((id, ref url)), .. } if id == ApplicationId(5) && url == "https://cb"));
}

#[test]
fn application_access_and_management() {
    let access = ApplicationAccessHandler;
    assert!(matches!(access.authenticate(Ok(false)), Err(HandlerError::Unauthorized)));
    assert!(access.authenticate(Ok(true)).is_ok());
    assert!(matches!(
        access.exchange(AccountId(1), Ok(false)),
        Err(HandlerError::Service(ServiceError::InvalidAuthorizationCode))
    ));
    assert_eq!(access.exchange(AccountId(1), Ok(true)).unwrap().account_id, AccountId(1));
    let account = Account {
        account_id: AccountId(1),
        username: Some("u".to_string()),
        email: None,
        username_aliases: vec![],
        secondary_emails: vec![],
    };
    assert!(matches!(access.get_account(account, Ok(false)), Err(HandlerError::Unauthorized)));

    let management = ApplicationManagementHandler;
    assert!(matches!(management.authorize_ownership(Ok(false)), Err(HandlerError::Unauthorized)));
    assert_eq!(management.rotate_client_secret(Ok("new".to_string())).unwrap().client_secret, "new");
}

#[test]
fn status_codes_and_messages() {
    assert_eq!(HandlerError::Service(ServiceError::Repo(RepoError::Internal("db"))).status_code(), 409);
    assert_eq!(HandlerError::Service(ServiceError::EmailNotFound).status_code(), 404);
    assert_eq!(HandlerError::Service(ServiceError::AccountNotFound).status_code(), 404);
    assert_eq!(HandlerError::Service(ServiceError::EmailTaken).status_code(), 400);
    assert_eq!(HandlerError::Unauthorized.status_code(), 401);
    assert_eq!(HandlerError::UnexpectedError("x").status_code(), 409);
    assert_eq!(HandlerError::Validation(ValidationErrors { errors: vec![] }).status_code(), 400);
    assert_eq!(
        HandlerError::Service(ServiceError::Repo(RepoError::Internal("db"))).public_message(),
        Some("error details are redacted")
    );
    assert_eq!(HandlerError::Service(ServiceError::TokenRevoked).public_message(), Some("invalid JWT"));
    assert_eq!(HandlerError::Unauthorized.public_message(), None);
}

#[test]
fn question_mark_helpers() {
    assert!(matches!(lift::<u8>(Err(ServiceError::UsernameTaken)), Err(HandlerError::Service(ServiceError::UsernameTaken))));
    assert_eq!(lift::<u8>(Ok(3)).unwrap(), 3);
    assert!(matches!(require_captcha(false), Err(HandlerError::InvalidCaptcha)));
    assert!(require_captcha(true).is_ok());
    let invalid = Email { email: "nope".to_string() }.validate();
    match validated(invalid) {
        Err(HandlerError::Validation(e)) => {
            assert_eq!(e.errors, vec![FieldError { parent: None, field: Field::Email, code: ErrorCode::Email }]);
        },
        _ => panic!("expected a validation error"),
    }
}
