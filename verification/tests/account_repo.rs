use metw_accounts::entity::{Account, ClientPasswordKdf, KeyEncryptionAlgorithm, ServerPasswordHashAlgorithm};
use metw_accounts::ids::AccountId;
use metw_accounts::repo::account::MockAccountRepoImpl;
use metw_accounts::repo::error::RepoError;

fn account(id: u64) -> Account {
    Account {
        account_id: AccountId(id),
        client_password_kdf: ClientPasswordKdf::Base64EncodedPbkdf2Sha256 {
            salt: "salt".to_string(),
            iterations: 600_000,
            length: 32,
        },
        server_password_hash_algorithm: ServerPasswordHashAlgorithm::Argon2id,
        password_hash: Some("hash".to_string()),
        master_key_kek_kdf: ClientPasswordKdf::PlainText,
        master_key_encryption_algorithm: KeyEncryptionAlgorithm::Unencrypted,
        encrypted_master_key: None,
        master_key_id: None,
    }
}

/// A repository with one account: `alice`, primary `alice@example.com`,
/// secondary `alice2@example.com`, alias `alice_old`.
fn seeded() -> MockAccountRepoImpl {
    let mut repo = MockAccountRepoImpl::new();
    let mut tx = repo.begin_transaction();
    tx.insert(&account(1)).unwrap();
    tx.insert_default_flags(AccountId(1)).unwrap();
    tx.insert_email_at(AccountId(1), "alice@example.com", true, 10).unwrap();
    tx.insert_email_at(AccountId(1), "alice2@example.com", false, 20).unwrap();
    tx.insert_username_at(AccountId(1), "alice", true, 10).unwrap();
    tx.insert_username_at(AccountId(1), "alice_old", false, 5).unwrap();
    tx.commit(&mut repo).unwrap();
    repo
}

#[test]
fn committed_transaction_is_visible() {
    let repo = seeded();
    assert_eq!(repo.get_primary_email(AccountId(1)), Some("alice@example.com".to_string()));
    assert_eq!(repo.get_secondary_emails(AccountId(1)), vec!["alice2@example.com".to_string()]);
    assert_eq!(repo.get_primary_username(AccountId(1)), Some("alice".to_string()));
    assert_eq!(repo.get_nonexpiring_username_aliases(AccountId(1)), vec!["alice_old".to_string()]);
    assert!(repo.is_email_taken("alice2@example.com"));
    assert!(repo.is_username_taken("alice"));
    assert!(repo.is_email_owned_by(AccountId(1), "alice@example.com"));
    assert!(!repo.is_email_owned_by(AccountId(2), "alice@example.com"));
}

#[test]
fn uncommitted_transaction_changes_nothing() {
    let repo = seeded();
    let mut tx = repo.begin_transaction();
    tx.insert_email_at(AccountId(1), "new@example.com", false, 30).unwrap();
    drop(tx);
    assert!(!repo.is_email_taken("new@example.com"));
}

#[test]
fn emails_and_usernames_are_unique() {
    let repo = seeded();
    let mut tx = repo.begin_transaction();
    assert!(tx.insert_email(AccountId(2), "alice@example.com", true).is_err());
    assert!(tx.insert_username(AccountId(2), "alice", true).is_err());
    assert_eq!(tx.count_emails(AccountId(1)).unwrap(), 2);
}

#[test]
fn login_credentials() {
    let repo = seeded();
    let by_email = repo.get_login_credentials_by_email("alice@example.com").unwrap();
    assert_eq!(by_email.account_id, AccountId(1));
    assert!(by_email.is_email_verified);
    let by_username = repo.get_login_credentials_by_username("alice").unwrap();
    assert_eq!(by_username.account_id, AccountId(1));
    assert!(!by_username.is_email_verified);
    assert_eq!(by_username.password_hash, Some("hash".to_string()));
    assert!(repo.get_login_credentials_by_username("nobody").is_none());

    let mut repo = repo;
    let mut tx = repo.begin_transaction();
    tx.set_email_verified_flag(AccountId(1), true).unwrap();
    assert!(tx.set_email_verified_flag(AccountId(9), true).is_err());
    tx.commit(&mut repo).unwrap();
    assert!(repo.get_login_credentials_by_account_id(AccountId(1)).unwrap().is_email_verified);
}

#[test]
fn primary_email_compare_and_set() {
    let mut repo = seeded();
    // A stale expectation changes nothing.
    assert!(!repo.compare_and_set_primary_email(AccountId(1), "wrong@example.com", "alice2@example.com"));
    assert_eq!(repo.get_primary_email(AccountId(1)), Some("alice@example.com".to_string()));
    // The new primary must be one of the account's e-mails.
    assert!(repo.compare_and_set_primary_email(AccountId(1), "alice@example.com", "alice2@example.com"));
    assert_eq!(repo.get_primary_email(AccountId(1)), Some("alice2@example.com".to_string()));
    assert_eq!(repo.get_secondary_emails(AccountId(1)), vec!["alice@example.com".to_string()]);
}

#[test]
fn primary_email_is_never_deleted() {
    let mut repo = seeded();
    assert!(!repo.delete_email_if_not_primary(AccountId(1), "alice@example.com"));
    assert!(repo.delete_email_if_not_primary(AccountId(1), "alice2@example.com"));
    assert!(!repo.is_email_taken("alice2@example.com"));
    assert!(repo.is_email_taken("alice@example.com"));
}

#[test]
fn password_credentials_update() {
    let mut repo = seeded();
    let mut tx = repo.begin_transaction();
    tx.set_password_credentials(AccountId(1), "new-hash", &ClientPasswordKdf::LegacySha256Hex, &ServerPasswordHashAlgorithm::Unhashed)
        .unwrap();
    assert!(tx
        .set_password_credentials(AccountId(2), "x", &ClientPasswordKdf::PlainText, &ServerPasswordHashAlgorithm::Unhashed)
        .is_err());
    tx.commit(&mut repo).unwrap();
    let c = repo.get_login_credentials_by_account_id(AccountId(1)).unwrap();
    assert_eq!(c.password_hash, Some("new-hash".to_string()));
    assert_eq!(c.server_password_hash_algorithm, ServerPasswordHashAlgorithm::Unhashed);
    assert!(matches!(repo.get_client_password_kdf_by_email("alice@example.com"), Some(ClientPasswordKdf::LegacySha256Hex)));
}

#[test]
fn taken_names_report_the_repository_error() {
    let repo = seeded();
    let mut tx = repo.begin_transaction();
    assert!(matches!(tx.insert_username(AccountId(2), "alice", true), Err(RepoError::Internal("username is taken"))));
    assert!(matches!(tx.insert_email(AccountId(2), "alice@example.com", true), Err(RepoError::Internal("email is taken"))));
    assert!(matches!(tx.set_email_verified_flag(AccountId(2), true), Err(RepoError::Internal("account does not exists"))));
}

#[test]
fn secondary_emails_are_the_non_primary_ones_each_once() {
    let mut repo = seeded();
    let mut tx = repo.begin_transaction();
    tx.insert_email_at(AccountId(1), "alice3@example.com", false, 30).unwrap();
    tx.insert_email_at(AccountId(2), "bob@example.com", false, 30).unwrap();
    tx.commit(&mut repo).unwrap();
    let mut secondary = repo.get_secondary_emails(AccountId(1));
    secondary.sort();
    assert_eq!(secondary, vec!["alice2@example.com".to_string(), "alice3@example.com".to_string()]);
    assert!(repo.get_secondary_emails(AccountId(3)).is_empty());
}
