use metw_accounts::ids::{AccountId, ApplicationId};
use metw_accounts::repo::authorization_code::MockAuthorizationCodeRepoImpl;

#[test]
fn code_is_consumed_once() {
    let mut repo = MockAuthorizationCodeRepoImpl::new();
    let code = repo.create(AccountId(1), ApplicationId(2), "c0de".to_string()).unwrap();
    assert_eq!(code, "c0de");
    // The code belongs to its application only.
    assert_eq!(repo.consume(ApplicationId(3), "c0de").unwrap(), None);
    assert_eq!(repo.consume(ApplicationId(2), "c0de").unwrap(), Some(AccountId(1)));
    assert_eq!(repo.consume(ApplicationId(2), "c0de").unwrap(), None);
}

#[test]
fn recreating_a_code_rebinds_it() {
    let mut repo = MockAuthorizationCodeRepoImpl::new();
    repo.create(AccountId(1), ApplicationId(2), "same".to_string()).unwrap();
    repo.create(AccountId(9), ApplicationId(2), "same".to_string()).unwrap();
    assert_eq!(repo.consume(ApplicationId(2), "same").unwrap(), Some(AccountId(9)));
}
