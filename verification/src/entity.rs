//! Stored entities. Instants are microseconds since the Unix epoch.

use vstd::prelude::*;
use crate::ids::{AccountId, ApplicationId, MasterKeyId};

verus! {

/// Key derivation algorithm applied by the server to the account's password.
#[derive(Clone, Copy, PartialEq, Eq, Structural, Debug)]
pub enum ServerPasswordHashAlgorithm {
    /// No additional server-side hashing is applied.
    Unhashed,
    /// Argon2id
    Argon2id,
}

/// Key derivation applied client-side.
#[derive(Debug)]
pub enum ClientPasswordKdf {
    /// Plain text.
    PlainText,
    /// For legacy accounts.
    LegacySha256Hex,
    /// Base64-encoded PBKDF2-SHA256.
    Base64EncodedPbkdf2Sha256 { salt: String, iterations: u32, length: u32 },
}

impl ClientPasswordKdf {
    /// An exact copy.
    pub fn copy(&self) -> (r: Self)
        ensures
            r == *self,
    {
        match self {
            ClientPasswordKdf::PlainText => ClientPasswordKdf::PlainText,
            ClientPasswordKdf::LegacySha256Hex => ClientPasswordKdf::LegacySha256Hex,
            ClientPasswordKdf::Base64EncodedPbkdf2Sha256 { salt, iterations, length } => {
                ClientPasswordKdf::Base64EncodedPbkdf2Sha256 {
                    salt: salt.clone(),
                    iterations: *iterations,
                    length: *length,
                }
            },
        }
    }
}

/// Algorithm used for encrypting the account master key.
#[derive(Clone, Copy, PartialEq, Eq, Structural, Debug)]
pub enum KeyEncryptionAlgorithm {
    /// No encryption is applied.
    Unencrypted,
    /// ChaCha20-Poly1305.
    ChaCha20Poly1305,
}

/// Account entity, mainly holding cryptographic material.
#[derive(Debug)]
pub struct Account {
    /// Account ID.
    pub account_id: AccountId,
    /// KDF for login.
    pub client_password_kdf: ClientPasswordKdf,
    /// Hash function applied before saving the password.
    pub server_password_hash_algorithm: ServerPasswordHashAlgorithm,
    /// Server-side password representation; absent for accounts that can no
    /// longer authenticate.
    pub password_hash: Option<String>,
    /// KDF for producing the key encryption key of the master key.
    pub master_key_kek_kdf: ClientPasswordKdf,
    /// Algorithm the client used to encrypt its master key.
    pub master_key_encryption_algorithm: KeyEncryptionAlgorithm,
    /// Client-provided encrypted master key.
    pub encrypted_master_key: Option<Vec<u8>>,
    /// Master key version.
    pub master_key_id: Option<MasterKeyId>,
}

/// An account, with its byte fields taken as sequences.
pub ghost struct AccountView {
    pub account_id: AccountId,
    pub client_password_kdf: ClientPasswordKdf,
    pub server_password_hash_algorithm: ServerPasswordHashAlgorithm,
    pub password_hash: Option<String>,
    pub master_key_kek_kdf: ClientPasswordKdf,
    pub master_key_encryption_algorithm: KeyEncryptionAlgorithm,
    pub encrypted_master_key: Option<Seq<u8>>,
    pub master_key_id: Option<MasterKeyId>,
}

/// The view of optional bytes.
pub open spec fn opt_bytes_view(b: Option<Vec<u8>>) -> Option<Seq<u8>> {
    match b {
        Some(v) => Some(v@),
        None => None,
    }
}

/// An exact copy of optional bytes.
pub fn copy_opt_bytes(b: &Option<Vec<u8>>) -> (r: Option<Vec<u8>>)
    ensures
        opt_bytes_view(r) == opt_bytes_view(*b),
{
    match b {
        Some(v) => {
            let mut r: Vec<u8> = Vec::new();
            let mut i: usize = 0;
            while i < v.len()
                invariant
                    i <= v.len(),
                    r@ == v@.take(i as int),
                decreases v.len() - i,
            {
                r.push(v[i]);
                assert(v@.take(i + 1) =~= v@.take(i as int).push(v@[i as int]));
                i = i + 1;
            }
            assert(v@.take(v.len() as int) =~= v@);
            Some(r)
        },
        None => None,
    }
}

/// An exact copy of an optional string.
pub fn copy_opt_string(s: &Option<String>) -> (r: Option<String>)
    ensures
        r == *s,
{
    match s {
        Some(v) => Some(v.clone()),
        None => None,
    }
}

impl View for Account {
    type V = AccountView;

    open spec fn view(&self) -> AccountView {
        AccountView {
            account_id: self.account_id,
            client_password_kdf: self.client_password_kdf,
            server_password_hash_algorithm: self.server_password_hash_algorithm,
            password_hash: self.password_hash,
            master_key_kek_kdf: self.master_key_kek_kdf,
            master_key_encryption_algorithm: self.master_key_encryption_algorithm,
            encrypted_master_key: opt_bytes_view(self.encrypted_master_key),
            master_key_id: self.master_key_id,
        }
    }
}

impl Account {
    /// An exact copy.
    pub fn copy(&self) -> (r: Self)
        ensures
            r@ == self@,
    {
        Account {
            account_id: self.account_id,
            client_password_kdf: self.client_password_kdf.copy(),
            server_password_hash_algorithm: self.server_password_hash_algorithm,
            password_hash: copy_opt_string(&self.password_hash),
            master_key_kek_kdf: self.master_key_kek_kdf.copy(),
            master_key_encryption_algorithm: self.master_key_encryption_algorithm,
            encrypted_master_key: copy_opt_bytes(&self.encrypted_master_key),
            master_key_id: self.master_key_id,
        }
    }
}

/// Account flags entity.
#[derive(Clone, Copy, PartialEq, Eq, Structural, Debug)]
pub struct AccountFlags {
    /// Account associated with the flags.
    pub account_id: AccountId,
    /// Whether the account's e-mail has been verified.
    pub is_email_verified: bool,
}

/// Username or username alias assigned to an account.
#[derive(Debug)]
pub struct Username {
    /// Username.
    pub username: String,
    /// Account the username belongs to.
    pub account_id: AccountId,
    /// Whether the username is the account's primary username.
    pub is_primary: bool,
    /// Instant the username was taken.
    pub created_at: i64,
    /// Instant the username expires at.
    pub expires_at: Option<i64>,
}

impl Username {
    /// An exact copy.
    pub fn copy(&self) -> (r: Self)
        ensures
            r == *self,
    {
        Username {
            username: self.username.clone(),
            account_id: self.account_id,
            is_primary: self.is_primary,
            created_at: self.created_at,
            expires_at: self.expires_at,
        }
    }
}

/// Verified e-mail of an account.
#[derive(Debug)]
pub struct Email {
    /// E-mail address.
    pub email: String,
    /// Account the address belongs to.
    pub account_id: AccountId,
    /// Whether the address is the account's primary e-mail.
    pub is_primary: bool,
    /// Instant the address was added at.
    pub created_at: i64,
}

impl Email {
    /// An exact copy.
    pub fn copy(&self) -> (r: Self)
        ensures
            r == *self,
    {
        Email {
            email: self.email.clone(),
            account_id: self.account_id,
            is_primary: self.is_primary,
            created_at: self.created_at,
        }
    }
}

/// Third-party application registered by a user.
#[derive(Debug)]
pub struct Application {
    /// Application ID.
    pub application_id: ApplicationId,
    /// Account that owns the application.
    pub owner_account_id: AccountId,
    /// Human-readable application name.
    pub name: String,
    /// SHA-256 digest of the client secret.
    pub client_secret_hash: [u8; 32],
}

impl Application {
    /// An exact copy.
    pub fn copy(&self) -> (r: Self)
        ensures
            r == *self,
    {
        Application {
            application_id: self.application_id,
            owner_account_id: self.owner_account_id,
            name: self.name.clone(),
            client_secret_hash: self.client_secret_hash,
        }
    }
}

/// Redirect URL that an application allows redirecting to.
#[derive(Debug)]
pub struct ApplicationRedirectUrl {
    /// Application ID.
    pub application_id: ApplicationId,
    /// The redirect URL.
    pub redirect_url: String,
}

/// Authorization of an application by a user.
#[derive(Debug)]
pub struct AccountApplicationConsent {
    /// The account that authorized the application.
    pub account_id: AccountId,
    /// The application.
    pub application_id: ApplicationId,
    /// Instant of the authorization.
    pub created_at: i64,
    /// Algorithm the client used to encrypt the application key.
    pub key_encryption_algorithm: KeyEncryptionAlgorithm,
    /// Application key encrypted by the account's master key.
    pub master_key_encrypted_key: Option<Vec<u8>>,
    /// Master key version of the account at the time of the authorization.
    pub master_key_id: Option<MasterKeyId>,
}

} // verus!
