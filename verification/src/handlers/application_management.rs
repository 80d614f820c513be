//! Decisions of the handlers with which owners manage their applications.

use vstd::prelude::*;
use crate::dto::response::RotatedClientSecret;
use crate::handlers::error::{HandlerError, HandlerResult, ServiceError};

verus! {

/// Application management handlers.
///
/// These handlers require a session, and the ownership of the application
/// should be checked before calling them.
pub struct ApplicationManagementHandler;

impl ApplicationManagementHandler {
    /// Decides on the ownership check: an account that does not own the
    /// application is unauthorized.
    pub fn authorize_ownership(&self, is_owned: Result<bool, ServiceError>) -> (r: HandlerResult<()>)
        ensures
            r == match is_owned {
                Err(e) => Err::<(), HandlerError>(HandlerError::Service(e)),
                Ok(false) => Err(HandlerError::Unauthorized),
                Ok(true) => Ok(()),
            },
    {
        match is_owned {
            Err(e) => Err(HandlerError::Service(e)),
            Ok(false) => Err(HandlerError::Unauthorized),
            Ok(true) => Ok(()),
        }
    }

    /// Answers a deletion once the application service deleted the
    /// application.
    pub fn delete(&self, deleted: Result<(), ServiceError>) -> (r: HandlerResult<()>)
        ensures
            r == match deleted {
                Err(e) => Err::<(), HandlerError>(HandlerError::Service(e)),
                Ok(()) => Ok(()),
            },
    {
        match deleted {
            Err(e) => Err(HandlerError::Service(e)),
            Ok(()) => Ok(()),
        }
    }

    /// The redirect URLs of the application, as the application service
    /// listed them.
    pub fn list_redirect_urls(&self, urls: Result<Vec<String>, ServiceError>) -> (r: HandlerResult<Vec<String>>)
        ensures
            r == match urls {
                Err(e) => Err::<Vec<String>, HandlerError>(HandlerError::Service(e)),
                Ok(u) => Ok(u),
            },
    {
        match urls {
            Err(e) => Err(HandlerError::Service(e)),
            Ok(u) => Ok(u),
        }
    }

    /// The response carrying the new client secret.
    pub fn rotate_client_secret(&self, rotated: Result<String, ServiceError>) -> (r: HandlerResult<RotatedClientSecret>)
        ensures
            r == match rotated {
                Err(e) => Err::<RotatedClientSecret, HandlerError>(HandlerError::Service(e)),
                Ok(s) => Ok(RotatedClientSecret { client_secret: s }),
            },
    {
        match rotated {
            Err(e) => Err(HandlerError::Service(e)),
            Ok(s) => Ok(RotatedClientSecret { client_secret: s }),
        }
    }
}

} // verus!
