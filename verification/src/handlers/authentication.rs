//! Gateway decisions for creating accounts and logging into them.

use vstd::prelude::*;
use crate::dto::request::{LoginWithEmail, LoginWithUsername, Signup};
use crate::dto::service::Login;
use crate::handlers::error::{HandlerError, HandlerResult, ServiceError};
use crate::handlers::flow::{Reply, Request};
use crate::handlers::mail::{carried_token, Outgoing, Template};
use crate::ids::AccountId;
use crate::token::{DecodedToken, Token, TokenScope};

verus! {

/// Gateway handlers for creating accounts or logging into accounts.
pub struct AuthenticationHandler;

/// Where a sign-up stands.
#[derive(Debug)]
pub enum SignupFlow {
    /// Waiting for the account to be created.
    Creating { username: String, email: String },
    /// Waiting for the confirmation e-mail to be sent; `session` is the
    /// answer after.
    Sending { session: Token },
    /// Answered.
    Over,
}

/// What a sign-up does next: ask for a call, or answer with the claims of
/// the session token.
#[derive(Debug)]
pub enum SignupNext {
    Call(Request),
    Finish(HandlerResult<Token>),
}

/// The confirmation e-mail of a sign-up.
pub open spec fn signup_outgoing(account_id: AccountId, email: String, username: String) -> Outgoing {
    Outgoing {
        email,
        account_id,
        template: Template::ConfirmSignup {
            username,
            token: Token { sub: account_id, scope: TokenScope::CompleteSignup { email } },
            application: None,
        },
    }
}

/// The reply that a sign-up waits for.
pub open spec fn signup_expects(flow: SignupFlow, reply: Reply) -> bool {
    match flow {
        SignupFlow::Creating { .. } => reply is AccountCreated,
        SignupFlow::Sending { .. } => reply is Sent,
        SignupFlow::Over => false,
    }
}

/// What a sign-up does with the reply it waits for.
pub open spec fn signup_next(flow: SignupFlow, reply: Reply) -> (SignupFlow, SignupNext) {
    match (flow, reply) {
        (SignupFlow::Creating { username, email }, Reply::AccountCreated(created)) => match created {
            Err(e) => (SignupFlow::Over, SignupNext::Finish(Err(HandlerError::Service(e)))),
            Ok(account_id) => (
                SignupFlow::Sending { session: Token { sub: account_id, scope: TokenScope::EmailVerificationSession } },
                SignupNext::Call(Request::Send { mail: signup_outgoing(account_id, email, username) }),
            ),
        },
        (SignupFlow::Sending { session }, Reply::Sent) => (SignupFlow::Over, SignupNext::Finish(Ok(session))),
        _ => (SignupFlow::Over, SignupNext::Finish(Err(HandlerError::Unauthorized))),
    }
}

/// A sign-up sends its e-mail only right after the account was created,
/// answers a failed creation (a taken username or e-mail among them) with
/// that very error and no e-mail, and answers with a session only once the
/// e-mail is sent.
pub proof fn law_signup_sends_after_creation(flow: SignupFlow, reply: Reply)
    requires
        signup_expects(flow, reply),
    ensures
        signup_next(flow, reply).1 matches SignupNext::Call(Request::Send { .. }) ==> flow is Creating
            && reply matches Reply::AccountCreated(Ok(_)),
        reply matches Reply::AccountCreated(Err(e)) ==> signup_next(flow, reply) == (
            SignupFlow::Over,
            SignupNext::Finish(Err(HandlerError::Service(e))),
        ),
        signup_next(flow, reply).1 matches SignupNext::Finish(Ok(_)) ==> flow is Sending,
{
}

/// The account of a verified token, if its scope is `wanted_session`
/// (a session when true, an e-mail verification session otherwise).
pub open spec fn session_account(verified: Result<DecodedToken, ServiceError>, wanted_session: bool) -> HandlerResult<AccountId> {
    match verified {
        Err(e) => Err(HandlerError::Service(e)),
        Ok(t) => if (wanted_session && t.scope is Session) || (!wanted_session && t.scope is EmailVerificationSession) {
            Ok(t.id)
        } else {
            Err(HandlerError::Unauthorized)
        },
    }
}

/// The claims of the session token that a login gives.
pub open spec fn login_claims(login: Login) -> Token {
    Token {
        sub: login.account_id,
        scope: if login.is_email_verified {
            TokenScope::Session
        } else {
            TokenScope::EmailVerificationSession
        },
    }
}

impl AuthenticationHandler {
    /// Accepts a session token. `verified` is the outcome of verifying it.
    pub fn auth_session(self, verified: Result<DecodedToken, ServiceError>) -> (r: HandlerResult<AccountId>)
        ensures
            r == session_account(verified, true),
    {
        match verified {
            Err(e) => Err(HandlerError::Service(e)),
            Ok(t) => match t.scope {
                TokenScope::Session => Ok(t.id),
                _ => Err(HandlerError::Unauthorized),
            },
        }
    }

    /// Accepts an e-mail verification session token. `verified` is the
    /// outcome of verifying it.
    pub fn auth_email_verification_session(self, verified: Result<DecodedToken, ServiceError>) -> (r: HandlerResult<AccountId>)
        ensures
            r == session_account(verified, false),
    {
        match verified {
            Err(e) => Err(HandlerError::Service(e)),
            Ok(t) => match t.scope {
                TokenScope::EmailVerificationSession => Ok(t.id),
                _ => Err(HandlerError::Unauthorized),
            },
        }
    }

    /// Starts a sign-up: the request is validated, then the account is
    /// created.
    pub fn signup(self, signup_dto: Signup) -> (r: (SignupFlow, SignupNext))
        ensures
            signup_dto.errors().len() == 0 ==> r == (
                SignupFlow::Creating { username: signup_dto.username, email: signup_dto.email },
                SignupNext::Call(Request::CreateAccount { signup: signup_dto }),
            ),
            signup_dto.errors().len() > 0 ==> r.0 is Over && (r.1 matches SignupNext::Finish(
                Err(HandlerError::Validation(e)),
            ) && e.errors@ == signup_dto.errors()),
    {
        match signup_dto.validate() {
            Err(e) => (SignupFlow::Over, SignupNext::Finish(Err(HandlerError::Validation(e)))),
            Ok(()) => {
                let flow = SignupFlow::Creating {
                    username: signup_dto.username.clone(),
                    email: signup_dto.email.clone(),
                };
                (flow, SignupNext::Call(Request::CreateAccount { signup: signup_dto }))
            },
        }
    }

    /// Takes the reply that the sign-up waits for, and goes on: a failed
    /// account creation (a taken username or e-mail among them) answers
    /// with its error and sends nothing; otherwise a confirmation e-mail,
    /// carrying a token that completes the sign-up, goes to the new
    /// address, and then the claims of an e-mail verification session are
    /// the answer.
    pub fn signup_step(self, flow: SignupFlow, reply: Reply) -> (r: (SignupFlow, SignupNext))
        requires
            signup_expects(flow, reply),
        ensures
            r == signup_next(flow, reply),
    {
        match flow {
            SignupFlow::Creating { username, email } => match reply {
                Reply::AccountCreated(created) => match created {
                    Err(e) => (SignupFlow::Over, SignupNext::Finish(Err(HandlerError::Service(e)))),
                    Ok(account_id) => {
                        let token = Token {
                            sub: account_id,
                            scope: TokenScope::CompleteSignup { email: email.clone() },
                        };
                        let template = Template::ConfirmSignup { username, token, application: None };
                        let mail = Outgoing { email, account_id, template };
                        let session = Token { sub: account_id, scope: TokenScope::EmailVerificationSession };
                        (SignupFlow::Sending { session }, SignupNext::Call(Request::Send { mail }))
                    },
                },
                _ => (SignupFlow::Over, SignupNext::Finish(Err(HandlerError::Unauthorized))),
            },
            SignupFlow::Sending { session } => (SignupFlow::Over, SignupNext::Finish(Ok(session))),
            SignupFlow::Over => (SignupFlow::Over, SignupNext::Finish(Err(HandlerError::Unauthorized))),
        }
    }

    /// Validates a username login before it is handed to the account
    /// service: the request itself to go on with, or its validation errors.
    pub fn login_with_username(self, login_dto: LoginWithUsername) -> (r: HandlerResult<LoginWithUsername>)
        ensures
            login_dto.errors().len() == 0 ==> r == Ok::<LoginWithUsername, HandlerError>(login_dto),
            login_dto.errors().len() > 0 ==> (r matches Err(HandlerError::Validation(e)) && e.errors@
                == login_dto.errors()),
    {
        match login_dto.validate() {
            Err(e) => Err(HandlerError::Validation(e)),
            Ok(()) => Ok(login_dto),
        }
    }

    /// Validates an e-mail login before it is handed to the account
    /// service: the request itself to go on with, or its validation errors.
    pub fn login_with_email(self, login_dto: LoginWithEmail) -> (r: HandlerResult<LoginWithEmail>)
        ensures
            login_dto.errors().len() == 0 ==> r == Ok::<LoginWithEmail, HandlerError>(login_dto),
            login_dto.errors().len() > 0 ==> (r matches Err(HandlerError::Validation(e)) && e.errors@
                == login_dto.errors()),
    {
        match login_dto.validate() {
            Err(e) => Err(HandlerError::Validation(e)),
            Ok(()) => Ok(login_dto),
        }
    }

    /// Answers a login once the account service checked the password: its
    /// error, or the claims of the session token (see `login`).
    pub fn logged_in(self, verified: Result<Login, ServiceError>) -> (r: HandlerResult<Token>)
        ensures
            r == match verified {
                Err(e) => Err::<Token, HandlerError>(HandlerError::Service(e)),
                Ok(l) => Ok(login_claims(l)),
            },
    {
        match verified {
            Err(e) => Err(HandlerError::Service(e)),
            Ok(l) => Ok(AuthenticationHandler.login(l)),
        }
    }

    /// Answers a logout once the token service revoked the token.
    pub fn logout(self, revoked: Result<(), ServiceError>) -> (r: HandlerResult<()>)
        ensures
            r == match revoked {
                Err(e) => Err::<(), HandlerError>(HandlerError::Service(e)),
                Ok(()) => Ok(()),
            },
    {
        match revoked {
            Err(e) => Err(HandlerError::Service(e)),
            Ok(()) => Ok(()),
        }
    }

    /// The claims of the token that a password-verified login gets: a
    /// session if the e-mail is verified, an e-mail verification session
    /// otherwise.
    pub fn login(self, login: Login) -> (r: Token)
        ensures
            r == login_claims(login),
    {
        let token_scope = if login.is_email_verified {
            TokenScope::Session
        } else {
            TokenScope::EmailVerificationSession
        };
        Token { sub: login.account_id, scope: token_scope }
    }
}

/// The first sign-up confirmation goes to the new address, and its token,
/// issued for the new account, completes the sign-up of exactly that
/// address.
pub proof fn law_signup_mail_completes_signup(account_id: AccountId, email: String, username: String)
    ensures
        ({
            let o = signup_outgoing(account_id, email, username);
            &&& o.email == email
            &&& o.account_id == account_id
            &&& o.template matches Template::ConfirmSignup { username: u, token, .. } && u == username
                && token == (Token { sub: account_id, scope: TokenScope::CompleteSignup { email } })
        }),
{
}

/// A verified e-mail logs into a session, an unverified one into an e-mail
/// verification session, for the account that logged in.
pub proof fn law_login_scope_follows_verification(login: Login)
    ensures
        login_claims(login).sub == login.account_id,
        login_claims(login).scope is Session <==> login.is_email_verified,
        login_claims(login).scope is EmailVerificationSession <==> !login.is_email_verified,
{
}

/// A sign-up mails the address it was started for, with a token for the
/// created account that completes that address's sign-up, and answers with
/// an e-mail verification session of that same account.
pub proof fn law_signup_acts_on_the_created_account(flow: SignupFlow, reply: Reply)
    requires
        signup_expects(flow, reply),
    ensures
        signup_next(flow, reply).1 matches SignupNext::Call(Request::Send { mail }) ==> (flow matches SignupFlow::Creating {
            email,
            ..
        } && reply matches Reply::AccountCreated(Ok(id)) && mail.email == email && mail.account_id == id
            && carried_token(mail.template) == (Token { sub: id, scope: TokenScope::CompleteSignup { email } })
            && signup_next(flow, reply).0 == (SignupFlow::Sending {
            session: Token { sub: id, scope: TokenScope::EmailVerificationSession },
        })),
{
}

} // verus!
