use metw_accounts::signin::{account_url, exchange_status, get_account_status, Error, EXCHANGE_URL};

#[test]
fn exchange_statuses() {
    assert_eq!(exchange_status(200), Ok(()));
    assert_eq!(exchange_status(400), Err(Error::InvalidAuthorizationCode));
    assert_eq!(exchange_status(401), Err(Error::Unauthorized));
    assert_eq!(exchange_status(500), Err(Error::UnknownError));
    assert_eq!(exchange_status(204), Err(Error::UnknownError));
}

#[test]
fn account_statuses_and_urls() {
    assert_eq!(get_account_status(200), Ok(()));
    assert_eq!(get_account_status(404), Err(Error::Unauthorized));
    assert_eq!(account_url("123"), "https://accounts.metw.cc/api/application/accounts/123");
    assert_eq!(EXCHANGE_URL, "https://accounts.metw.cc/api/application/exchange");
}
