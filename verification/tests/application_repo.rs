use metw_accounts::entity::Application;
use metw_accounts::ids::{AccountId, ApplicationId};
use metw_accounts::repo::application::MockApplicationRepoImpl;
use metw_accounts::repo::error::RepoError;

fn application(id: u64, owner: u64, name: &str) -> Application {
    Application {
        application_id: ApplicationId(id),
        owner_account_id: AccountId(owner),
        name: name.to_string(),
        client_secret_hash: [7; 32],
    }
}

fn seeded() -> MockApplicationRepoImpl {
    let mut repo = MockApplicationRepoImpl::new();
    let mut tx = repo.begin_transaction();
    tx.insert(application(10, 1, "ten")).unwrap();
    tx.insert(application(20, 1, "twenty")).unwrap();
    tx.insert(application(30, 2, "thirty")).unwrap();
    tx.commit(&mut repo).unwrap();
    repo
}

#[test]
fn ownership_and_listing() {
    let repo = seeded();
    assert!(repo.is_owned_by(ApplicationId(10), AccountId(1)));
    assert!(!repo.is_owned_by(ApplicationId(30), AccountId(1)));
    assert!(!repo.is_owned_by(ApplicationId(99), AccountId(1)));
    let mut owned: Vec<(u64, String)> =
        repo.list_by_owner(AccountId(1)).into_iter().map(|s| (s.application_id.0, s.name)).collect();
    owned.sort();
    assert_eq!(owned, vec![(10, "ten".to_string()), (20, "twenty".to_string())]);
    let mut tx = repo.begin_transaction();
    assert_eq!(tx.count_by_owner(AccountId(1)).unwrap(), 2);
    assert_eq!(tx.count_by_owner(AccountId(3)).unwrap(), 0);
}

#[test]
fn redirect_urls_refuse_duplicates() {
    let mut repo = seeded();
    let mut tx = repo.begin_transaction();
    tx.insert_redirect_url(ApplicationId(10), "https://a.example/cb").unwrap();
    tx.insert_redirect_url(ApplicationId(10), "https://b.example/cb").unwrap();
    assert!(matches!(
        tx.insert_redirect_url(ApplicationId(10), "https://a.example/cb"),
        Err(RepoError::Internal("redirect url exists in the application"))
    ));
    assert_eq!(tx.count_redirect_urls(ApplicationId(10)).unwrap(), 2);
    tx.commit(&mut repo).unwrap();
    assert_eq!(
        repo.list_redirect_urls(ApplicationId(10)),
        vec!["https://a.example/cb".to_string(), "https://b.example/cb".to_string()]
    );
    assert!(repo.list_redirect_urls(ApplicationId(20)).is_empty());
}

#[test]
fn redirect_url_insert_then_delete_restores_the_list() {
    let mut repo = seeded();
    let mut tx = repo.begin_transaction();
    tx.insert_redirect_url(ApplicationId(20), "https://keep.example").unwrap();
    tx.insert_redirect_url(ApplicationId(20), "https://drop.example").unwrap();
    tx.delete_redirect_url(ApplicationId(20), "https://drop.example").unwrap();
    tx.delete_redirect_url(ApplicationId(20), "https://never.example").unwrap();
    tx.commit(&mut repo).unwrap();
    assert_eq!(repo.list_redirect_urls(ApplicationId(20)), vec!["https://keep.example".to_string()]);
}

#[test]
fn consents_insert_idempotent_and_delete() {
    let mut repo = seeded();
    let mut tx = repo.begin_transaction();
    tx.insert_consent_at(AccountId(5), ApplicationId(10), 1_000).unwrap();
    tx.insert_consent_at(AccountId(5), ApplicationId(10), 2_000).unwrap();
    tx.commit(&mut repo).unwrap();
    assert!(repo.consent_exists(AccountId(5), ApplicationId(10)));
    let consents = repo.list_consents(AccountId(5), None);
    assert_eq!(consents.len(), 1);
    // The first consent keeps its time.
    assert_eq!(consents[0].created_at, 1_000);
    assert_eq!(consents[0].name, "ten");

    let mut tx = repo.begin_transaction();
    tx.delete_consent(AccountId(5), ApplicationId(10)).unwrap();
    tx.commit(&mut repo).unwrap();
    assert!(!repo.consent_exists(AccountId(5), ApplicationId(10)));
}

#[test]
fn consent_pages_are_ascending_and_bounded() {
    let mut repo = MockApplicationRepoImpl::new();
    let mut tx = repo.begin_transaction();
    for id in (1..=15u64).rev() {
        tx.insert(application(id, 9, &format!("app{id}"))).unwrap();
        tx.insert_consent_at(AccountId(1), ApplicationId(id), id as i64).unwrap();
    }
    tx.insert_consent_at(AccountId(2), ApplicationId(3), 0).unwrap();
    tx.commit(&mut repo).unwrap();

    let first: Vec<u64> = repo.list_consents(AccountId(1), None).iter().map(|c| c.application_id.0).collect();
    assert_eq!(first, (1..=10).collect::<Vec<u64>>());
    let second: Vec<u64> =
        repo.list_consents(AccountId(1), Some(ApplicationId(10))).iter().map(|c| c.application_id.0).collect();
    assert_eq!(second, (11..=15).collect::<Vec<u64>>());
    assert!(repo.list_consents(AccountId(1), Some(ApplicationId(15))).is_empty());
}

#[test]
fn delete_drops_the_application_and_its_redirect_urls() {
    let mut repo = seeded();
    let mut tx = repo.begin_transaction();
    tx.insert_redirect_url(ApplicationId(10), "https://a.example").unwrap();
    tx.insert_consent_at(AccountId(5), ApplicationId(10), 1).unwrap();
    tx.insert_consent_at(AccountId(5), ApplicationId(20), 1).unwrap();
    tx.delete(ApplicationId(10)).unwrap();
    tx.commit(&mut repo).unwrap();
    assert!(!repo.is_owned_by(ApplicationId(10), AccountId(1)));
    assert!(repo.list_redirect_urls(ApplicationId(10)).is_empty());
    // Of the consents, only those to the deleted application stay.
    assert!(repo.consent_exists(AccountId(5), ApplicationId(10)));
    assert!(!repo.consent_exists(AccountId(5), ApplicationId(20)));
}

#[test]
fn rename_and_secret_rotation() {
    let mut repo = seeded();
    let mut tx = repo.begin_transaction();
    tx.set_name(ApplicationId(10), "renamed").unwrap();
    tx.set_client_secret_hash(ApplicationId(10), &[1; 32]).unwrap();
    tx.set_name(ApplicationId(99), "ghost").unwrap();
    tx.commit(&mut repo).unwrap();
    let names: Vec<String> = repo.list_by_owner(AccountId(1)).into_iter().map(|s| s.name).collect();
    assert!(names.contains(&"renamed".to_string()));
    assert!(!repo.is_owned_by(ApplicationId(99), AccountId(1)));
}
