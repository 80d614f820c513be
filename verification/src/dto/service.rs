//! Values that the service layer hands to the handlers.

use vstd::prelude::*;
use crate::ids::{AccountId, ApplicationId};

verus! {

/// Password verified login.
///
/// `is_email_verified` determines the session type: a session if true, an
/// e-mail verification session otherwise.
#[derive(Debug)]
pub struct Login {
    pub account_id: AccountId,
    pub is_email_verified: bool,
}

/// Newly created application.
#[derive(Debug)]
pub struct CreatedApplication {
    pub application_id: ApplicationId,
    pub client_secret: String,
}

} // verus!
