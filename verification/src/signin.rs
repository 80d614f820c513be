//! The client side of application sign-in: how an application reads the
//! answers of the accounts center.

use vstd::prelude::*;

verus! {

/// A successful account response of the API.
#[derive(Debug)]
pub struct Account {
    /// Unique account ID.
    pub account_id: String,
    /// The user's primary username, if it exists.
    pub username: Option<String>,
    /// Primary e-mail address, if it exists.
    pub email: Option<String>,
    /// Username aliases.
    pub username_aliases: Vec<String>,
    /// Secondary e-mails.
    pub secondary_emails: Vec<String>,
}

/// Errors that the API answers with.
#[derive(Clone, Copy, PartialEq, Eq, Structural, Debug)]
pub enum Error {
    /// Invalid client secret or unauthorized account access.
    Unauthorized,
    /// The authorization code is not valid.
    InvalidAuthorizationCode,
    /// The API answered with an unexpected status.
    UnknownError,
}

/// The endpoint that exchanges authorization codes.
pub const EXCHANGE_URL: &'static str = "https://accounts.metw.cc/api/application/exchange";

/// What the status of an exchange answer means: 400 an invalid code, 401 a
/// refused application, 200 success, and anything else an unknown error.
pub open spec fn exchange_outcome(status: u16) -> Result<(), Error> {
    if status == 400 {
        Err(Error::InvalidAuthorizationCode)
    } else if status == 401 {
        Err(Error::Unauthorized)
    } else if status != 200 {
        Err(Error::UnknownError)
    } else {
        Ok(())
    }
}

/// Reads the status of an authorization code exchange answer.
pub fn exchange_status(status: u16) -> (r: Result<(), Error>)
    ensures
        r == exchange_outcome(status),
{
    if status == 400 {
        Err(Error::InvalidAuthorizationCode)
    } else if status == 401 {
        Err(Error::Unauthorized)
    } else if status != 200 {
        Err(Error::UnknownError)
    } else {
        Ok(())
    }
}

/// Reads the status of an account answer: anything but 200 means the
/// application may not read the account.
pub fn get_account_status(status: u16) -> (r: Result<(), Error>)
    ensures
        r == if status == 200 {
            Ok::<(), Error>(())
        } else {
            Err(Error::Unauthorized)
        },
{
    if status == 200 {
        Ok(())
    } else {
        Err(Error::Unauthorized)
    }
}

/// The endpoint that answers the account with this id.
pub fn account_url(account_id: &str) -> (r: String)
    ensures
        r@ == "https://accounts.metw.cc/api/application/accounts/"@ + account_id@,
{
    let base = "https://accounts.metw.cc/api/application/accounts/";
    base.to_owned().concat(account_id)
}

} // verus!
