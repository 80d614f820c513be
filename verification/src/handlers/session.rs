//! Decisions of the account handlers that need a session.

use vstd::prelude::*;
use crate::decimal::{format_i64, signed_decimal};
use crate::dto::repo::{OwnedApplicationAccountConsent, OwnedApplicationSummary};
use crate::dto::response::{
    Account, ApplicationConsent, ApplicationConsentStatus, ApplicationSummary, AuthorizationCode,
    CreatedApplication,
};
use crate::dto::request::{Captcha, ChangePassword, Email};
use crate::dto::service::CreatedApplication as NewApplication;
use crate::handlers::error::{HandlerError, HandlerResult, ServiceError};
use crate::handlers::flow::{Next, Reply, Request};
use crate::handlers::mail::{carried_token, Outgoing, Template};
use crate::ids::AccountId;
use crate::token::{Token, TokenScope};

verus! {

/// Account handlers that do not require escalated privileges.
///
/// These handlers should be protected by session tokens; the account id
/// they take is the one of that token.
pub struct SessionHandler;

/// The username that an e-mail flow goes on with: a failed lookup, or an
/// account with no username, stops the flow.
pub open spec fn username_found(username: Result<Option<String>, ServiceError>) -> HandlerResult<String> {
    match username {
        Err(e) => Err(HandlerError::Service(e)),
        Ok(None) => Err(HandlerError::UnexpectedError("account with no username")),
        Ok(Some(u)) => Ok(u),
    }
}

/// The outcome of the lookups of `add_email`: whether the e-mail is taken,
/// then the primary username of the account.
pub open spec fn add_email_lookup_outcome(
    email_taken: Result<bool, ServiceError>,
    primary_username: Result<Option<String>, ServiceError>,
) -> HandlerResult<String> {
    match email_taken {
        Err(e) => Err(HandlerError::Service(e)),
        Ok(true) => Err(HandlerError::Service(ServiceError::EmailTaken)),
        Ok(false) => username_found(primary_username),
    }
}

/// The outcome of the lookups of `change_primary_email`: the current
/// primary e-mail and the username, unless one is missing or the new
/// e-mail is already the primary one.
pub open spec fn change_primary_email_lookup_outcome(
    new_primary_email: Seq<char>,
    current_primary_email: Result<Option<String>, ServiceError>,
    primary_username: Result<Option<String>, ServiceError>,
) -> HandlerResult<(String, String)> {
    match current_primary_email {
        Err(e) => Err(HandlerError::Service(e)),
        Ok(None) => Err(HandlerError::UnexpectedError("account with no primary email")),
        Ok(Some(current)) => match username_found(primary_username) {
            Err(e) => Err(e),
            Ok(username) => if current@ == new_primary_email {
                Err(HandlerError::AlreadyPrimaryEmail)
            } else {
                Ok((current, username))
            },
        },
    }
}

/// The creation time of a consent, in whole seconds since the Unix epoch,
/// as decimal text.
pub open spec fn timestamp_text(created_at_micros: i64) -> Seq<char> {
    signed_decimal(created_at_micros as int / 1_000_000)
}

/// The response entry of a consent.
pub open spec fn consent_entry(c: OwnedApplicationAccountConsent, e: ApplicationConsent) -> bool {
    &&& e.application_id == c.application_id
    &&& e.name == c.name
    &&& e.created_at_timestamp@ == timestamp_text(c.created_at)
}

/// The response entry of an owned application.
pub open spec fn summary_entry(a: OwnedApplicationSummary) -> ApplicationSummary {
    ApplicationSummary { application_id: a.application_id, name: a.name }
}

/// The e-mail that confirms adding `email` to the account.
pub open spec fn add_email_outgoing(account_id: AccountId, email: String, username: String) -> Outgoing {
    Outgoing {
        email,
        account_id,
        template: Template::ConfirmNewEmail {
            username,
            email,
            token: Token { sub: account_id, scope: TokenScope::AddEmail { email } },
        },
    }
}

/// The e-mail that confirms moving the primary e-mail, to the current one.
pub open spec fn change_primary_email_outgoing(
    account_id: AccountId,
    current_primary_email: String,
    new_primary_email: String,
    username: String,
) -> Outgoing {
    Outgoing {
        email: current_primary_email,
        account_id,
        template: Template::ConfirmPrimaryEmailChange {
            username,
            current_primary_email,
            new_primary_email,
            token: Token {
                sub: account_id,
                scope: TokenScope::ChangePrimaryEmail { current_primary_email, new_primary_email },
            },
        },
    }
}

/// Where an `add_email` request stands.
#[derive(Debug)]
pub enum AddEmailFlow {
    /// Waiting for the CAPTCHA check.
    Captcha { account_id: AccountId, email: String },
    /// Waiting for the e-mail and username lookups.
    Lookups { account_id: AccountId, email: String },
    /// Waiting for the sending limits.
    Quota { account_id: AccountId, email: String, username: String },
    /// Waiting for the confirmation e-mail to be sent.
    Sending,
    /// Answered.
    Over,
}

/// The reply that an `add_email` flow waits for.
pub open spec fn add_email_expects(flow: AddEmailFlow, reply: Reply) -> bool {
    match flow {
        AddEmailFlow::Captcha { .. } => reply is Captcha,
        AddEmailFlow::Lookups { .. } => reply is EmailTakenAndPrimaryUsername,
        AddEmailFlow::Quota { .. } => reply is Quota,
        AddEmailFlow::Sending => reply is Sent,
        AddEmailFlow::Over => false,
    }
}

/// What an `add_email` flow does with the reply it waits for.
pub open spec fn add_email_next(flow: AddEmailFlow, reply: Reply) -> (AddEmailFlow, Next) {
    match (flow, reply) {
        (AddEmailFlow::Captcha { account_id, email }, Reply::Captcha(valid)) => if valid {
            (
                AddEmailFlow::Lookups { account_id, email },
                Next::Call(Request::IsEmailTakenAndGetPrimaryUsername { email, account_id }),
            )
        } else {
            (AddEmailFlow::Over, Next::Finish(Err(HandlerError::InvalidCaptcha)))
        },
        (AddEmailFlow::Lookups { account_id, email }, Reply::EmailTakenAndPrimaryUsername(taken, username)) => {
            match add_email_lookup_outcome(taken, username) {
                Err(e) => (AddEmailFlow::Over, Next::Finish(Err(e))),
                Ok(u) => (
                    AddEmailFlow::Quota { account_id, email, username: u },
                    Next::Call(Request::CheckAndConsumeQuota { email }),
                ),
            }
        },
        (AddEmailFlow::Quota { account_id, email, username }, Reply::Quota(q)) => match q {
            Err(e) => (AddEmailFlow::Over, Next::Finish(Err(HandlerError::Service(e)))),
            Ok(()) => (
                AddEmailFlow::Sending,
                Next::Call(Request::Send { mail: add_email_outgoing(account_id, email, username) }),
            ),
        },
        (AddEmailFlow::Sending, Reply::Sent) => (AddEmailFlow::Over, Next::Finish(Ok(()))),
        _ => (AddEmailFlow::Over, Next::Finish(Ok(()))),
    }
}

/// Where a `change_primary_email` request stands.
#[derive(Debug)]
pub enum ChangePrimaryEmailFlow {
    /// Waiting for the CAPTCHA check.
    Captcha { account_id: AccountId, new_primary_email: String },
    /// Waiting for the primary e-mail and username lookups.
    Lookups { account_id: AccountId, new_primary_email: String },
    /// Waiting for whether the new e-mail is the account's.
    Ownership { account_id: AccountId, current_primary_email: String, new_primary_email: String, username: String },
    /// Waiting for the confirmation e-mail to be sent.
    Sending,
    /// Answered.
    Over,
}

/// The reply that a `change_primary_email` flow waits for.
pub open spec fn change_primary_email_expects(flow: ChangePrimaryEmailFlow, reply: Reply) -> bool {
    match flow {
        ChangePrimaryEmailFlow::Captcha { .. } => reply is Captcha,
        ChangePrimaryEmailFlow::Lookups { .. } => reply is PrimaryEmailAndUsername,
        ChangePrimaryEmailFlow::Ownership { .. } => reply is EmailOwned,
        ChangePrimaryEmailFlow::Sending => reply is Sent,
        ChangePrimaryEmailFlow::Over => false,
    }
}

/// What a `change_primary_email` flow does with the reply it waits for.
pub open spec fn change_primary_email_next(flow: ChangePrimaryEmailFlow, reply: Reply) -> (ChangePrimaryEmailFlow, Next) {
    match (flow, reply) {
        (ChangePrimaryEmailFlow::Captcha { account_id, new_primary_email }, Reply::Captcha(valid)) => if valid {
            (
                ChangePrimaryEmailFlow::Lookups { account_id, new_primary_email },
                Next::Call(Request::GetPrimaryEmailAndUsername { account_id }),
            )
        } else {
            (ChangePrimaryEmailFlow::Over, Next::Finish(Err(HandlerError::InvalidCaptcha)))
        },
        (
            ChangePrimaryEmailFlow::Lookups { account_id, new_primary_email },
            Reply::PrimaryEmailAndUsername(current, username),
        ) => match change_primary_email_lookup_outcome(new_primary_email@, current, username) {
            Err(e) => (ChangePrimaryEmailFlow::Over, Next::Finish(Err(e))),
            Ok(found) => (
                ChangePrimaryEmailFlow::Ownership {
                    account_id,
                    current_primary_email: found.0,
                    new_primary_email,
                    username: found.1,
                },
                Next::Call(Request::IsEmailOwnedBy { account_id, email: new_primary_email }),
            ),
        },
        (
            ChangePrimaryEmailFlow::Ownership { account_id, current_primary_email, new_primary_email, username },
            Reply::EmailOwned(owned),
        ) => match owned {
            Err(e) => (ChangePrimaryEmailFlow::Over, Next::Finish(Err(HandlerError::Service(e)))),
            Ok(false) => (
                ChangePrimaryEmailFlow::Over,
                Next::Finish(Err(HandlerError::Service(ServiceError::EmailNotFound))),
            ),
            Ok(true) => (
                ChangePrimaryEmailFlow::Sending,
                Next::Call(
                    Request::Send {
                        mail: change_primary_email_outgoing(account_id, current_primary_email, new_primary_email, username),
                    },
                ),
            ),
        },
        (ChangePrimaryEmailFlow::Sending, Reply::Sent) => (ChangePrimaryEmailFlow::Over, Next::Finish(Ok(()))),
        _ => (ChangePrimaryEmailFlow::Over, Next::Finish(Ok(()))),
    }
}

/// Whole seconds of an instant in microseconds, rounded down.
pub fn seconds_of(micros: i64) -> (r: i64)
    ensures
        r == micros as int / 1_000_000,
{
    if micros >= 0 {
        micros / 1_000_000
    } else {
        let magnitude: u64 = if micros == i64::MIN {
            9_223_372_036_854_775_808u64
        } else {
            (-micros) as u64
        };
        let up: u64 = (magnitude + 999_999) / 1_000_000;
        proof {
            let m = micros as int;
            let a = magnitude as int;
            assert(a == -m);
            assert(up as int == (a + 999_999) / 1_000_000);
            assert(m / 1_000_000 == -(up as int)) by (nonlinear_arith)
                requires
                    a == -m,
                    a > 0,
                    up as int == (a + 999_999) / 1_000_000,
            ;
        }
        -(up as i64)
    }
}

impl SessionHandler {
    /// Starts adding an e-mail to the account: the request is validated,
    /// then the CAPTCHA is checked.
    pub fn add_email(&self, account_id: AccountId, email_dto: Email, captcha: Captcha) -> (r: (AddEmailFlow, Next))
        ensures
            email_dto.errors_under(None).len() == 0 ==> r == (
                AddEmailFlow::Captcha { account_id, email: email_dto.email },
                Next::Call(Request::ValidateCaptcha { captcha: captcha.captcha }),
            ),
            email_dto.errors_under(None).len() > 0 ==> r.0 is Over && (r.1 matches Next::Finish(
                Err(HandlerError::Validation(e)),
            ) && e.errors@ == email_dto.errors_under(None)),
    {
        match email_dto.validate() {
            Err(e) => (AddEmailFlow::Over, Next::Finish(Err(HandlerError::Validation(e)))),
            Ok(()) => (
                AddEmailFlow::Captcha { account_id, email: email_dto.email },
                Next::Call(Request::ValidateCaptcha { captcha: captcha.captcha }),
            ),
        }
    }

    /// Takes the reply that the `add_email` flow waits for, and goes on:
    /// a rejected CAPTCHA, a taken e-mail, a failed lookup, an account with
    /// no username or an exhausted limit answer with an error; otherwise
    /// the confirmation e-mail is sent and the request succeeds.
    pub fn add_email_step(&self, flow: AddEmailFlow, reply: Reply) -> (r: (AddEmailFlow, Next))
        requires
            add_email_expects(flow, reply),
        ensures
            r == add_email_next(flow, reply),
    {
        match flow {
            AddEmailFlow::Captcha { account_id, email } => match reply {
                Reply::Captcha(valid) => if valid {
                    let request = Request::IsEmailTakenAndGetPrimaryUsername { email: email.clone(), account_id };
                    (AddEmailFlow::Lookups { account_id, email }, Next::Call(request))
                } else {
                    (AddEmailFlow::Over, Next::Finish(Err(HandlerError::InvalidCaptcha)))
                },
                _ => (AddEmailFlow::Over, Next::Finish(Ok(()))),
            },
            AddEmailFlow::Lookups { account_id, email } => match reply {
                Reply::EmailTakenAndPrimaryUsername(taken, username) => match self.add_email_lookup(taken, username) {
                    Err(e) => (AddEmailFlow::Over, Next::Finish(Err(e))),
                    Ok(u) => {
                        let request = Request::CheckAndConsumeQuota { email: email.clone() };
                        (AddEmailFlow::Quota { account_id, email, username: u }, Next::Call(request))
                    },
                },
                _ => (AddEmailFlow::Over, Next::Finish(Ok(()))),
            },
            AddEmailFlow::Quota { account_id, email, username } => match reply {
                Reply::Quota(q) => match q {
                    Err(e) => (AddEmailFlow::Over, Next::Finish(Err(HandlerError::Service(e)))),
                    Ok(()) => {
                        let mail = self.add_email_mail(account_id, email, username);
                        (AddEmailFlow::Sending, Next::Call(Request::Send { mail }))
                    },
                },
                _ => (AddEmailFlow::Over, Next::Finish(Ok(()))),
            },
            AddEmailFlow::Sending => (AddEmailFlow::Over, Next::Finish(Ok(()))),
            AddEmailFlow::Over => (AddEmailFlow::Over, Next::Finish(Ok(()))),
        }
    }

    /// Starts moving the primary e-mail of the account: the request is
    /// validated, then the CAPTCHA is checked.
    pub fn change_primary_email(&self, account_id: AccountId, email_dto: Email, captcha: Captcha) -> (r: (ChangePrimaryEmailFlow, Next))
        ensures
            email_dto.errors_under(None).len() == 0 ==> r == (
                ChangePrimaryEmailFlow::Captcha { account_id, new_primary_email: email_dto.email },
                Next::Call(Request::ValidateCaptcha { captcha: captcha.captcha }),
            ),
            email_dto.errors_under(None).len() > 0 ==> r.0 is Over && (r.1 matches Next::Finish(
                Err(HandlerError::Validation(e)),
            ) && e.errors@ == email_dto.errors_under(None)),
    {
        match email_dto.validate() {
            Err(e) => (ChangePrimaryEmailFlow::Over, Next::Finish(Err(HandlerError::Validation(e)))),
            Ok(()) => (
                ChangePrimaryEmailFlow::Captcha { account_id, new_primary_email: email_dto.email },
                Next::Call(Request::ValidateCaptcha { captcha: captcha.captcha }),
            ),
        }
    }

    /// Takes the reply that the `change_primary_email` flow waits for, and
    /// goes on: a rejected CAPTCHA, a failed lookup, an account with no
    /// primary e-mail or username, a new e-mail that is primary already or
    /// is not the account's answer with an error; otherwise the
    /// confirmation e-mail goes to the current primary address and the
    /// request succeeds.
    pub fn change_primary_email_step(&self, flow: ChangePrimaryEmailFlow, reply: Reply) -> (r: (ChangePrimaryEmailFlow, Next))
        requires
            change_primary_email_expects(flow, reply),
        ensures
            r == change_primary_email_next(flow, reply),
    {
        match flow {
            ChangePrimaryEmailFlow::Captcha { account_id, new_primary_email } => match reply {
                Reply::Captcha(valid) => if valid {
                    (
                        ChangePrimaryEmailFlow::Lookups { account_id, new_primary_email },
                        Next::Call(Request::GetPrimaryEmailAndUsername { account_id }),
                    )
                } else {
                    (ChangePrimaryEmailFlow::Over, Next::Finish(Err(HandlerError::InvalidCaptcha)))
                },
                _ => (ChangePrimaryEmailFlow::Over, Next::Finish(Ok(()))),
            },
            ChangePrimaryEmailFlow::Lookups { account_id, new_primary_email } => match reply {
                Reply::PrimaryEmailAndUsername(current, username) => match self.change_primary_email_lookup(
                    &new_primary_email,
                    current,
                    username,
                ) {
                    Err(e) => (ChangePrimaryEmailFlow::Over, Next::Finish(Err(e))),
                    Ok(found) => {
                        let request = Request::IsEmailOwnedBy { account_id, email: new_primary_email.clone() };
                        (
                            ChangePrimaryEmailFlow::Ownership {
                                account_id,
                                current_primary_email: found.0,
                                new_primary_email,
                                username: found.1,
                            },
                            Next::Call(request),
                        )
                    },
                },
                _ => (ChangePrimaryEmailFlow::Over, Next::Finish(Ok(()))),
            },
            ChangePrimaryEmailFlow::Ownership { account_id, current_primary_email, new_primary_email, username } => {
                match reply {
                    Reply::EmailOwned(owned) => match self.change_primary_email_owned(owned) {
                        Err(e) => (ChangePrimaryEmailFlow::Over, Next::Finish(Err(e))),
                        Ok(()) => {
                            let mail = self.change_primary_email_mail(
                                account_id,
                                current_primary_email,
                                new_primary_email,
                                username,
                            );
                            (ChangePrimaryEmailFlow::Sending, Next::Call(Request::Send { mail }))
                        },
                    },
                    _ => (ChangePrimaryEmailFlow::Over, Next::Finish(Ok(()))),
                }
            },
            ChangePrimaryEmailFlow::Sending => (ChangePrimaryEmailFlow::Over, Next::Finish(Ok(()))),
            ChangePrimaryEmailFlow::Over => (ChangePrimaryEmailFlow::Over, Next::Finish(Ok(()))),
        }
    }

    /// The account, as the account service read it.
    pub fn get_current_account(&self, account: Result<Account, ServiceError>) -> (r: HandlerResult<Account>)
        ensures
            r == match account {
                Err(e) => Err::<Account, HandlerError>(HandlerError::Service(e)),
                Ok(a) => Ok(a),
            },
    {
        match account {
            Err(e) => Err(HandlerError::Service(e)),
            Ok(a) => Ok(a),
        }
    }

    /// Validates the e-mail to remove before it is handed to the account
    /// service: the address to remove, or the validation errors.
    pub fn remove_email(&self, email_dto: Email) -> (r: HandlerResult<String>)
        ensures
            email_dto.errors_under(None).len() == 0 ==> r == Ok::<String, HandlerError>(email_dto.email),
            email_dto.errors_under(None).len() > 0 ==> (r matches Err(HandlerError::Validation(e)) && e.errors@
                == email_dto.errors_under(None)),
    {
        match email_dto.validate() {
            Err(e) => Err(HandlerError::Validation(e)),
            Ok(()) => Ok(email_dto.email),
        }
    }

    /// Validates a password change before it is handed to the account
    /// service: the request itself to go on with, or its validation errors.
    pub fn change_password(&self, change_password_dto: ChangePassword) -> (r: HandlerResult<ChangePassword>)
        ensures
            change_password_dto.errors().len() == 0 ==> r == Ok::<ChangePassword, HandlerError>(change_password_dto),
            change_password_dto.errors().len() > 0 ==> (r matches Err(HandlerError::Validation(e)) && e.errors@
                == change_password_dto.errors()),
    {
        match change_password_dto.validate() {
            Err(e) => Err(HandlerError::Validation(e)),
            Ok(()) => Ok(change_password_dto),
        }
    }

    /// Decides on the lookups of `add_email`: a taken e-mail or a failed
    /// lookup stops it, and so does an account with no username. Returns
    /// the username the confirmation e-mail greets.
    pub fn add_email_lookup(
        &self,
        email_taken: Result<bool, ServiceError>,
        primary_username: Result<Option<String>, ServiceError>,
    ) -> (r: HandlerResult<String>)
        ensures
            r == add_email_lookup_outcome(email_taken, primary_username),
    {
        match email_taken {
            Err(e) => return Err(HandlerError::Service(e)),
            Ok(true) => return Err(HandlerError::Service(ServiceError::EmailTaken)),
            Ok(false) => {},
        }
        match primary_username {
            Err(e) => Err(HandlerError::Service(e)),
            Ok(None) => Err(HandlerError::UnexpectedError("account with no username")),
            Ok(Some(u)) => Ok(u),
        }
    }

    /// The e-mail that confirms adding `new_email` to the account, sent to
    /// that address.
    pub fn add_email_mail(&self, account_id: AccountId, new_email: String, username: String) -> (r: Outgoing)
        ensures
            r == add_email_outgoing(account_id, new_email, username),
            r.email == new_email,
            carried_token(r.template) == (Token { sub: account_id, scope: TokenScope::AddEmail { email: new_email } }),
    {
        let token = Token { sub: account_id, scope: TokenScope::AddEmail { email: new_email.clone() } };
        let template = Template::ConfirmNewEmail { username, email: new_email.clone(), token };
        Outgoing { email: new_email, account_id, template }
    }

    /// Decides on the lookups of `change_primary_email`: the account must
    /// have a primary e-mail and a username, and the new e-mail must not be
    /// the primary one already. Returns the current primary e-mail and the
    /// username.
    pub fn change_primary_email_lookup(
        &self,
        new_primary_email: &String,
        current_primary_email: Result<Option<String>, ServiceError>,
        primary_username: Result<Option<String>, ServiceError>,
    ) -> (r: HandlerResult<(String, String)>)
        ensures
            r == change_primary_email_lookup_outcome(new_primary_email@, current_primary_email, primary_username),
    {
        let current = match current_primary_email {
            Err(e) => return Err(HandlerError::Service(e)),
            Ok(None) => return Err(HandlerError::UnexpectedError("account with no primary email")),
            Ok(Some(c)) => c,
        };
        let username = match primary_username {
            Err(e) => return Err(HandlerError::Service(e)),
            Ok(None) => return Err(HandlerError::UnexpectedError("account with no username")),
            Ok(Some(u)) => u,
        };
        if current.eq(new_primary_email) {
            return Err(HandlerError::AlreadyPrimaryEmail);
        }
        Ok((current, username))
    }

    /// Decides on whether the new primary e-mail is one of the account's:
    /// if not, the e-mail is not found.
    pub fn change_primary_email_owned(&self, is_owned: Result<bool, ServiceError>) -> (r: HandlerResult<()>)
        ensures
            r == match is_owned {
                Err(e) => Err::<(), HandlerError>(HandlerError::Service(e)),
                Ok(false) => Err(HandlerError::Service(ServiceError::EmailNotFound)),
                Ok(true) => Ok(()),
            },
    {
        match is_owned {
            Err(e) => Err(HandlerError::Service(e)),
            Ok(false) => Err(HandlerError::Service(ServiceError::EmailNotFound)),
            Ok(true) => Ok(()),
        }
    }

    /// The e-mail that confirms moving the primary e-mail, sent to the
    /// current primary address.
    pub fn change_primary_email_mail(
        &self,
        account_id: AccountId,
        current_primary_email: String,
        new_primary_email: String,
        username: String,
    ) -> (r: Outgoing)
        ensures
            r == change_primary_email_outgoing(account_id, current_primary_email, new_primary_email, username),
            r.email == current_primary_email,
            carried_token(r.template) == (Token {
                sub: account_id,
                scope: TokenScope::ChangePrimaryEmail { current_primary_email, new_primary_email },
            }),
    {
        let token = Token {
            sub: account_id,
            scope: TokenScope::ChangePrimaryEmail {
                current_primary_email: current_primary_email.clone(),
                new_primary_email: new_primary_email.clone(),
            },
        };
        let template = Template::ConfirmPrimaryEmailChange {
            username,
            current_primary_email: current_primary_email.clone(),
            new_primary_email,
            token,
        };
        Outgoing { email: current_primary_email, account_id, template }
    }

    /// The applications owned by the account, as response entries.
    pub fn get_owned_applications(&self, applications: Result<Vec<OwnedApplicationSummary>, ServiceError>) -> (r: HandlerResult<Vec<ApplicationSummary>>)
        ensures
            match applications {
                Err(e) => r == Err::<Vec<ApplicationSummary>, HandlerError>(HandlerError::Service(e)),
                Ok(list) => r matches Ok(v) && v@ == list@.map_values(|a: OwnedApplicationSummary| summary_entry(a)),
            },
    {
        let list = match applications {
            Err(e) => return Err(HandlerError::Service(e)),
            Ok(list) => list,
        };
        let ghost items = list@;
        let mut out: Vec<ApplicationSummary> = Vec::new();
        let mut rest = list;
        let mut i: usize = 0;
        let n = rest.len();
        while i < n
            invariant
                n == items.len(),
                i <= n,
                rest@ == items.subrange(i as int, n as int),
                out@ == items.take(i as int).map_values(|a: OwnedApplicationSummary| summary_entry(a)),
            decreases n - i,
        {
            let a = rest.remove(0);
            out.push(ApplicationSummary { application_id: a.application_id, name: a.name });
            assert(items.take(i + 1) =~= items.take(i as int).push(items[i as int]));
            assert(rest@ =~= items.subrange(i + 1, n as int));
            i = i + 1;
            assert(out@ =~= items.take(i as int).map_values(|a: OwnedApplicationSummary| summary_entry(a)));
        }
        assert(items.take(n as int) =~= items);
        Ok(out)
    }

    /// The response to creating an application named `name`.
    pub fn create_application(&self, name: String, created: Result<NewApplication, ServiceError>) -> (r: HandlerResult<CreatedApplication>)
        ensures
            match created {
                Err(e) => r == Err::<CreatedApplication, HandlerError>(HandlerError::Service(e)),
                Ok(a) => r == Ok::<CreatedApplication, HandlerError>(CreatedApplication {
                    application_id: a.application_id,
                    name,
                    client_secret: a.client_secret,
                }),
            },
    {
        match created {
            Err(e) => Err(HandlerError::Service(e)),
            Ok(a) => Ok(CreatedApplication { application_id: a.application_id, name, client_secret: a.client_secret }),
        }
    }

    /// The consents of the account, as response entries with the creation
    /// time in seconds.
    pub fn get_application_consents(&self, consents: Result<Vec<OwnedApplicationAccountConsent>, ServiceError>) -> (r: HandlerResult<Vec<ApplicationConsent>>)
        ensures
            match consents {
                Err(e) => r == Err::<Vec<ApplicationConsent>, HandlerError>(HandlerError::Service(e)),
                Ok(list) => r matches Ok(v) && v@.len() == list@.len() && forall|k: int| 0 <= k < v@.len()
                    ==> consent_entry(#[trigger] list@[k], v@[k]),
            },
    {
        let list = match consents {
            Err(e) => return Err(HandlerError::Service(e)),
            Ok(list) => list,
        };
        let mut out: Vec<ApplicationConsent> = Vec::new();
        let mut i: usize = 0;
        while i < list.len()
            invariant
                i <= list.len(),
                out@.len() == i,
                forall|k: int| 0 <= k < i ==> consent_entry(#[trigger] list@[k], out@[k]),
            decreases list.len() - i,
        {
            let c = &list[i];
            let secs = seconds_of(c.created_at);
            out.push(ApplicationConsent {
                application_id: c.application_id,
                name: c.name.clone(),
                created_at_timestamp: format_i64(secs),
            });
            i = i + 1;
        }
        Ok(out)
    }

    /// Decides on whether the redirect URL is registered for the
    /// application: if not, the authorization is refused.
    pub fn authorize_application_redirect(&self, has_redirect_url: Result<bool, ServiceError>) -> (r: HandlerResult<()>)
        ensures
            r == match has_redirect_url {
                Err(e) => Err::<(), HandlerError>(HandlerError::Service(e)),
                Ok(false) => Err(HandlerError::Service(ServiceError::InvalidRedirectUrl)),
                Ok(true) => Ok(()),
            },
    {
        match has_redirect_url {
            Err(e) => Err(HandlerError::Service(e)),
            Ok(false) => Err(HandlerError::Service(ServiceError::InvalidRedirectUrl)),
            Ok(true) => Ok(()),
        }
    }

    /// Decides on whether the account has authorized the application: a
    /// code is only created for an authorized one.
    pub fn create_authorization_code_consent(&self, has_consent: Result<bool, ServiceError>) -> (r: HandlerResult<()>)
        ensures
            r == match has_consent {
                Err(e) => Err::<(), HandlerError>(HandlerError::Service(e)),
                Ok(false) => Err(HandlerError::Unauthorized),
                Ok(true) => Ok(()),
            },
    {
        match has_consent {
            Err(e) => Err(HandlerError::Service(e)),
            Ok(false) => Err(HandlerError::Unauthorized),
            Ok(true) => Ok(()),
        }
    }

    /// The response carrying a created authorization code.
    pub fn create_authorization_code(&self, created: Result<String, ServiceError>) -> (r: HandlerResult<AuthorizationCode>)
        ensures
            r == match created {
                Err(e) => Err::<AuthorizationCode, HandlerError>(HandlerError::Service(e)),
                Ok(c) => Ok(AuthorizationCode { authorization_code: c }),
            },
    {
        match created {
            Err(e) => Err(HandlerError::Service(e)),
            Ok(c) => Ok(AuthorizationCode { authorization_code: c }),
        }
    }

    /// The response telling whether the account has authorized the
    /// application.
    pub fn get_application_consent_status(&self, has_consent: Result<bool, ServiceError>) -> (r: HandlerResult<ApplicationConsentStatus>)
        ensures
            r == match has_consent {
                Err(e) => Err::<ApplicationConsentStatus, HandlerError>(HandlerError::Service(e)),
                Ok(b) => Ok(ApplicationConsentStatus { is_authorized: b }),
            },
    {
        match has_consent {
            Err(e) => Err(HandlerError::Service(e)),
            Ok(b) => Ok(ApplicationConsentStatus { is_authorized: b }),
        }
    }
}

/// `add_email` asks to use the sending limits only right after its lookups
/// found the e-mail free and the account's username.
pub proof fn law_add_email_limits_after_lookups(flow: AddEmailFlow, reply: Reply)
    requires
        add_email_expects(flow, reply),
        add_email_next(flow, reply).1 matches Next::Call(Request::CheckAndConsumeQuota { .. }),
    ensures
        flow is Lookups,
        reply matches Reply::EmailTakenAndPrimaryUsername(Ok(false), Ok(Some(_))),
{
}

/// `add_email` sends its e-mail only right after the sending limits
/// allowed it, and succeeds only once the e-mail is sent.
pub proof fn law_add_email_sends_after_limits(flow: AddEmailFlow, reply: Reply)
    requires
        add_email_expects(flow, reply),
    ensures
        send_target(add_email_next(flow, reply).1) is Some ==> flow is Quota && reply matches Reply::Quota(Ok(())),
        add_email_next(flow, reply).1 matches Next::Finish(Ok(())) ==> flow is Sending,
{
}

/// `change_primary_email` sends its e-mail only right after learning that
/// the new e-mail is the account's, to the account's current primary
/// address, and succeeds only once the e-mail is sent.
pub proof fn law_change_primary_email_sends_after_ownership(flow: ChangePrimaryEmailFlow, reply: Reply)
    requires
        change_primary_email_expects(flow, reply),
    ensures
        send_target(change_primary_email_next(flow, reply).1) is Some ==> (flow matches ChangePrimaryEmailFlow::Ownership {
            current_primary_email, ..
        } && send_target(change_primary_email_next(flow, reply).1) == Some(current_primary_email)
            && reply matches Reply::EmailOwned(Ok(true))),
        change_primary_email_next(flow, reply).1 matches Next::Finish(Ok(())) ==> flow is Sending,
{
}

/// The address that a next step sends an e-mail to, if it sends one.
pub open spec fn send_target(next: Next) -> Option<String> {
    match next {
        Next::Call(Request::Send { mail }) => Some(mail.email),
        _ => None,
    }
}

/// The confirmation of a primary e-mail change goes to the account's current
/// primary address, and its token, issued for the account, asks to move the
/// primary e-mail from that current address to the requested one: the same
/// pair, in the same order, that the mail itself names.
pub proof fn law_change_primary_email_mail_moves_current_to_new(
    account_id: AccountId,
    current_primary_email: String,
    new_primary_email: String,
    username: String,
)
    ensures
        ({
            let o = change_primary_email_outgoing(account_id, current_primary_email, new_primary_email, username);
            &&& o.email == current_primary_email
            &&& o.account_id == account_id
            &&& o.template matches Template::ConfirmPrimaryEmailChange {
                current_primary_email: c,
                new_primary_email: n,
                token,
                ..
            } && c == current_primary_email && n == new_primary_email && token.sub == account_id
                && token.scope == TokenScope::ChangePrimaryEmail { current_primary_email: c, new_primary_email: n }
        }),
{
}

/// The confirmation of a new e-mail goes to that new address, and its
/// token, issued for the account, asks to add exactly that address.
pub proof fn law_add_email_mail_adds_that_address(account_id: AccountId, email: String, username: String)
    ensures
        ({
            let o = add_email_outgoing(account_id, email, username);
            &&& o.email == email
            &&& o.account_id == account_id
            &&& o.template matches Template::ConfirmNewEmail { email: e, token, .. } && e == email
                && token == (Token { sub: account_id, scope: TokenScope::AddEmail { email } })
        }),
{
}

/// The account and address that an `add_email` flow works for, while it
/// has not answered.
pub open spec fn add_email_target(flow: AddEmailFlow) -> Option<(AccountId, String)> {
    match flow {
        AddEmailFlow::Captcha { account_id, email } => Some((account_id, email)),
        AddEmailFlow::Lookups { account_id, email } => Some((account_id, email)),
        AddEmailFlow::Quota { account_id, email, .. } => Some((account_id, email)),
        _ => None,
    }
}

/// The current primary e-mail that a lookup reply found, if it found one.
pub open spec fn looked_up_current(reply: Reply) -> Option<String> {
    match reply {
        Reply::PrimaryEmailAndUsername(Ok(Some(c)), _) => Some(c),
        _ => None,
    }
}

/// The account and requested address of a primary e-mail change, while it
/// has not answered.
pub open spec fn change_target(flow: ChangePrimaryEmailFlow) -> Option<(AccountId, String)> {
    match flow {
        ChangePrimaryEmailFlow::Captcha { account_id, new_primary_email } => Some((account_id, new_primary_email)),
        ChangePrimaryEmailFlow::Lookups { account_id, new_primary_email } => Some((account_id, new_primary_email)),
        ChangePrimaryEmailFlow::Ownership { account_id, new_primary_email, .. } => Some((account_id, new_primary_email)),
        _ => None,
    }
}

/// The current primary e-mail that a change is about to replace.
pub open spec fn change_current(flow: ChangePrimaryEmailFlow) -> Option<String> {
    match flow {
        ChangePrimaryEmailFlow::Ownership { current_primary_email, .. } => Some(current_primary_email),
        _ => None,
    }
}

/// Every call and e-mail of `add_email` is about the address the flow was
/// started for: the limits checked are that address's, and the mail goes
/// to it with a token, for the flow's account, that adds exactly it. The
/// flow's account and address never change from step to step.
pub proof fn law_add_email_acts_on_the_requested_address(flow: AddEmailFlow, reply: Reply)
    requires
        add_email_expects(flow, reply),
    ensures
        add_email_next(flow, reply).1 matches Next::Call(Request::CheckAndConsumeQuota { email: q }) ==> (
        flow matches AddEmailFlow::Lookups { email, .. } && q == email),
        add_email_next(flow, reply).1 matches Next::Call(Request::Send { mail }) ==> (flow matches AddEmailFlow::Quota {
            account_id,
            email,
            ..
        } && mail.email == email && mail.account_id == account_id && carried_token(mail.template) == (Token {
            sub: account_id,
            scope: TokenScope::AddEmail { email },
        })),
        add_email_target(add_email_next(flow, reply).0) is Some ==> add_email_target(add_email_next(flow, reply).0)
            == add_email_target(flow),
{
}

/// The primary e-mail change asks about the requested address's ownership,
/// and its mail goes to the looked-up current address with a token that
/// moves the primary e-mail from that current address to the requested
/// one, for the flow's account.
pub proof fn law_change_primary_email_acts_on_the_pair(flow: ChangePrimaryEmailFlow, reply: Reply)
    requires
        change_primary_email_expects(flow, reply),
    ensures
        change_primary_email_next(flow, reply).1 matches Next::Call(Request::IsEmailOwnedBy { account_id: a, email: q }) ==> (
        flow matches ChangePrimaryEmailFlow::Lookups { account_id, new_primary_email } && a == account_id && q
            == new_primary_email),
        change_primary_email_next(flow, reply).1 matches Next::Call(Request::Send { mail }) ==> (
        flow matches ChangePrimaryEmailFlow::Ownership { account_id, current_primary_email, new_primary_email, .. }
            && mail.email == current_primary_email && carried_token(mail.template) == (Token {
            sub: account_id,
            scope: TokenScope::ChangePrimaryEmail { current_primary_email, new_primary_email },
        })),
        change_target(change_primary_email_next(flow, reply).0) is Some ==> change_target(
            change_primary_email_next(flow, reply).0,
        ) == change_target(flow),
        change_primary_email_next(flow, reply).0 is Ownership ==> flow is Lookups && change_current(
            change_primary_email_next(flow, reply).0,
        ) == looked_up_current(reply),
{
}

} // verus!
