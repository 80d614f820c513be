//! Decisions of the handlers that registered applications call.

use vstd::prelude::*;
use crate::dto::response::{Account, AuthorizationCodeExchangeResult};
use crate::handlers::error::{HandlerError, HandlerResult, ServiceError};
use crate::ids::AccountId;

verus! {

/// Application access handlers.
///
/// Registered applications access account details and exchange
/// authorization codes through these.
pub struct ApplicationAccessHandler;

impl ApplicationAccessHandler {
    /// Decides on the check of the application's client secret: a wrong
    /// secret is unauthorized.
    pub fn authenticate(&self, secret_matches: Result<bool, ServiceError>) -> (r: HandlerResult<()>)
        ensures
            r == match secret_matches {
                Err(e) => Err::<(), HandlerError>(HandlerError::Service(e)),
                Ok(false) => Err(HandlerError::Unauthorized),
                Ok(true) => Ok(()),
            },
    {
        match secret_matches {
            Err(e) => Err(HandlerError::Service(e)),
            Ok(false) => Err(HandlerError::Unauthorized),
            Ok(true) => Ok(()),
        }
    }

    /// Decides on an authorization code exchange, once the code was
    /// consumed for `account_id`: the account must still have authorized
    /// the application, else the code is invalid.
    pub fn exchange(&self, account_id: AccountId, has_consent: Result<bool, ServiceError>) -> (r: HandlerResult<AuthorizationCodeExchangeResult>)
        ensures
            r == match has_consent {
                Err(e) => Err::<AuthorizationCodeExchangeResult, HandlerError>(HandlerError::Service(e)),
                Ok(false) => Err(HandlerError::Service(ServiceError::InvalidAuthorizationCode)),
                Ok(true) => Ok(AuthorizationCodeExchangeResult { account_id }),
            },
    {
        match has_consent {
            Err(e) => Err(HandlerError::Service(e)),
            Ok(false) => Err(HandlerError::Service(ServiceError::InvalidAuthorizationCode)),
            Ok(true) => Ok(AuthorizationCodeExchangeResult { account_id }),
        }
    }

    /// Hands the account to the application only if the account has
    /// authorized it.
    pub fn get_account(&self, account: Account, has_consent: Result<bool, ServiceError>) -> (r: HandlerResult<Account>)
        ensures
            r == match has_consent {
                Err(e) => Err::<Account, HandlerError>(HandlerError::Service(e)),
                Ok(false) => Err(HandlerError::Unauthorized),
                Ok(true) => Ok(account),
            },
    {
        match has_consent {
            Err(e) => Err(HandlerError::Service(e)),
            Ok(false) => Err(HandlerError::Unauthorized),
            Ok(true) => Ok(account),
        }
    }
}

} // verus!
