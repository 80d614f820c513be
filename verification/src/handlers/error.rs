//! Errors that the handlers report, and the HTTP status each one answers.

use vstd::prelude::*;
use crate::dto::request::ValidationErrors;
use crate::repo::error::RepoError;

verus! {

/// Errors of the service layer that reach the handlers.
#[derive(Debug)]
pub enum ServiceError {
    /// The repository failed.
    Repo(RepoError),
    /// The token is malformed or its signature does not match.
    InvalidJwt,
    /// The token has been revoked.
    TokenRevoked,
    /// The e-mail belongs to an account.
    EmailTaken,
    /// The username belongs to an account.
    UsernameTaken,
    /// The e-mail is not one of the account's.
    EmailNotFound,
    /// No such account.
    AccountNotFound,
    /// The redirect URL is not registered for the application.
    InvalidRedirectUrl,
    /// The authorization code is unknown or no longer backed by a consent.
    InvalidAuthorizationCode,
}

/// Handler error reporting.
#[derive(Debug)]
pub enum HandlerError {
    Service(ServiceError),
    Validation(ValidationErrors),
    Unauthorized,
    UnexpectedError(&'static str),
    InvalidCaptcha,
    AlreadyPrimaryEmail,
}

/// Handler result type.
pub type HandlerResult<T> = Result<T, HandlerError>;

/// What `?` makes of a service result in a handler.
pub open spec fn lifted<T>(r: Result<T, ServiceError>) -> HandlerResult<T> {
    match r {
        Ok(v) => Ok(v),
        Err(e) => Err(HandlerError::Service(e)),
    }
}

/// Passes a service result on, as `?` does in a handler.
pub fn lift<T>(r: Result<T, ServiceError>) -> (o: HandlerResult<T>)
    ensures
        o == lifted(r),
{
    match r {
        Ok(v) => Ok(v),
        Err(e) => Err(HandlerError::Service(e)),
    }
}

/// Passes a validation outcome on, as `?` does in a handler.
pub fn validated(r: Result<(), ValidationErrors>) -> (o: HandlerResult<()>)
    ensures
        o == match r {
            Ok(()) => Ok::<(), HandlerError>(()),
            Err(e) => Err(HandlerError::Validation(e)),
        },
{
    match r {
        Ok(()) => Ok(()),
        Err(e) => Err(HandlerError::Validation(e)),
    }
}

/// Fails with `InvalidCaptcha` unless the CAPTCHA was accepted.
pub fn require_captcha(is_valid: bool) -> (r: HandlerResult<()>)
    ensures
        r == if is_valid {
            Ok::<(), HandlerError>(())
        } else {
            Err(HandlerError::InvalidCaptcha)
        },
{
    if is_valid {
        Ok(())
    } else {
        Err(HandlerError::InvalidCaptcha)
    }
}

/// The HTTP status that answers a handler error: a repository failure or an
/// unexpected state is a conflict (409), an unknown e-mail or account is not
/// found (404), an unauthorized request is 401, and every other error is a
/// bad request (400).
pub open spec fn status_of(e: HandlerError) -> u16 {
    match e {
        HandlerError::Service(s) => match s {
            ServiceError::Repo(..) => 409,
            ServiceError::EmailNotFound | ServiceError::AccountNotFound => 404,
            _ => 400,
        },
        HandlerError::Validation(..) => 400,
        HandlerError::Unauthorized => 401,
        HandlerError::UnexpectedError(..) => 409,
        HandlerError::InvalidCaptcha => 400,
        HandlerError::AlreadyPrimaryEmail => 400,
    }
}

impl HandlerError {
    /// The HTTP status code of the response that reports this error.
    pub fn status_code(&self) -> (r: u16)
        ensures
            r == status_of(*self),
    {
        match self {
            HandlerError::Service(s) => match s {
                ServiceError::Repo(..) => 409,
                ServiceError::EmailNotFound | ServiceError::AccountNotFound => 404,
                _ => 400,
            },
            HandlerError::Validation(..) => 400,
            HandlerError::Unauthorized => 401,
            HandlerError::UnexpectedError(..) => 409,
            HandlerError::InvalidCaptcha => 400,
            HandlerError::AlreadyPrimaryEmail => 400,
        }
    }

    /// The message that replaces the error's own text in a response: the
    /// details of a repository failure are redacted, and a refused token is
    /// reported as an invalid JWT. `None` where the error's own text is used.
    pub fn public_message(&self) -> (r: Option<&'static str>)
        ensures
            r == match *self {
                HandlerError::Service(ServiceError::Repo(..)) => Some("error details are redacted"),
                HandlerError::Service(ServiceError::InvalidJwt) => Some("invalid JWT"),
                HandlerError::Service(ServiceError::TokenRevoked) => Some("invalid JWT"),
                _ => None::<&'static str>,
            },
    {
        match self {
            HandlerError::Service(ServiceError::Repo(..)) => Some("error details are redacted"),
            HandlerError::Service(ServiceError::InvalidJwt) => Some("invalid JWT"),
            HandlerError::Service(ServiceError::TokenRevoked) => Some("invalid JWT"),
            _ => None,
        }
    }
}

} // verus!
