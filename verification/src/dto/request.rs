//! Request bodies and their validation rules.

use vstd::prelude::*;
use crate::ids::{AccountId, parse_u64};
use crate::validation::{
    check_length, email_syntax_ok, has_no_ascii_uppercase, is_email, is_lowercase, length_within,
    matches_username, matches_username_pattern,
};

verus! {

/// Rule that a field broke.
#[derive(Clone, Copy, PartialEq, Eq, Structural, Debug)]
pub enum ErrorCode {
    /// Character count out of the allowed range.
    Length,
    /// The username pattern does not match.
    Regex,
    /// Not an e-mail address.
    Email,
    /// Holds an ASCII upper-case letter.
    MustBeLowercase,
}

/// A validated field.
#[derive(Clone, Copy, PartialEq, Eq, Structural, Debug)]
pub enum Field {
    Username,
    Email,
    ClientPasswordHash,
    CurrentPasswordHash,
    Base64Hash,
    Pbkdf2Salt,
}

/// The field of the outer request that a nested error belongs to.
#[derive(Clone, Copy, PartialEq, Eq, Structural, Debug)]
pub enum ParentField {
    Password,
    NewPassword,
    Account,
}

/// One broken rule.
#[derive(Clone, Copy, PartialEq, Eq, Structural, Debug)]
pub struct FieldError {
    pub parent: Option<ParentField>,
    pub field: Field,
    pub code: ErrorCode,
}

/// Every rule that a request broke, in the order the fields are declared.
#[derive(Debug)]
pub struct ValidationErrors {
    pub errors: Vec<FieldError>,
}

/// The single error `code` on `field`, or nothing when `ok`.
pub open spec fn rule(ok: bool, parent: Option<ParentField>, field: Field, code: ErrorCode) -> Seq<FieldError> {
    if ok {
        Seq::empty()
    } else {
        seq![FieldError { parent, field, code }]
    }
}

/// Errors of a username field: 2 to 20 characters matching the username pattern.
pub open spec fn username_errors(s: Seq<char>, parent: Option<ParentField>) -> Seq<FieldError> {
    rule(length_within(s, 2, 20), parent, Field::Username, ErrorCode::Length)
        + rule(matches_username_pattern(s), parent, Field::Username, ErrorCode::Regex)
}

/// Errors of an e-mail field: valid syntax and no upper-case letter.
pub open spec fn email_errors(s: Seq<char>, parent: Option<ParentField>) -> Seq<FieldError> {
    rule(email_syntax_ok(s), parent, Field::Email, ErrorCode::Email)
        + rule(has_no_ascii_uppercase(s), parent, Field::Email, ErrorCode::MustBeLowercase)
}

/// Errors of a field limited to 128 characters.
pub open spec fn max_128_errors(s: Seq<char>, parent: Option<ParentField>, field: Field) -> Seq<FieldError> {
    rule(length_within(s, 0, 128), parent, field, ErrorCode::Length)
}

/// The outcome of a validation that found `errors`.
pub open spec fn outcome(errors: Seq<FieldError>, r: Result<(), ValidationErrors>) -> bool {
    match r {
        Ok(()) => errors.len() == 0,
        Err(e) => errors.len() > 0 && e.errors@ == errors,
    }
}

fn push_rule(errs: &mut Vec<FieldError>, ok: bool, parent: Option<ParentField>, field: Field, code: ErrorCode)
    ensures
        final(errs)@ == old(errs)@ + rule(ok, parent, field, code),
{
    if !ok {
        errs.push(FieldError { parent, field, code });
    } else {
        assert(old(errs)@ + rule(ok, parent, field, code) =~= old(errs)@);
    }
}

fn push_username_errors(errs: &mut Vec<FieldError>, s: &String, parent: Option<ParentField>)
    ensures
        final(errs)@ == old(errs)@ + username_errors(s@, parent),
{
    let ghost before = errs@;
    push_rule(errs, check_length(s.as_str(), 2, 20), parent, Field::Username, ErrorCode::Length);
    push_rule(errs, matches_username(s.as_str()), parent, Field::Username, ErrorCode::Regex);
    assert(errs@ =~= before + username_errors(s@, parent));
}

fn push_email_errors(errs: &mut Vec<FieldError>, s: &String, parent: Option<ParentField>)
    ensures
        final(errs)@ == old(errs)@ + email_errors(s@, parent),
        !s@.contains('@') ==> !email_syntax_ok(s@),
{
    let ghost before = errs@;
    push_rule(errs, is_email(s), parent, Field::Email, ErrorCode::Email);
    push_rule(errs, is_lowercase(s.as_str()), parent, Field::Email, ErrorCode::MustBeLowercase);
    assert(errs@ =~= before + email_errors(s@, parent));
}

fn push_max_128_errors(errs: &mut Vec<FieldError>, s: &String, parent: Option<ParentField>, field: Field)
    ensures
        final(errs)@ == old(errs)@ + max_128_errors(s@, parent, field),
{
    push_rule(errs, check_length(s.as_str(), 0, 128), parent, field, ErrorCode::Length);
}

fn finish(errs: Vec<FieldError>) -> (r: Result<(), ValidationErrors>)
    ensures
        outcome(errs@, r),
{
    if errs.len() == 0 {
        Ok(())
    } else {
        Err(ValidationErrors { errors: errs })
    }
}

/// Password hashed client-side, with PBKDF2-SHA256 parameters.
#[derive(Debug)]
pub struct ClientDerivedPassword {
    pub base64_hash: String,
    pub pbkdf2_salt: String,
    pub pbkdf2_iterations: u32,
    pub pbkdf2_length: u32,
}

impl ClientDerivedPassword {
    /// Rules: hash and salt of at most 128 characters each.
    pub open spec fn errors_under(&self, parent: Option<ParentField>) -> Seq<FieldError> {
        max_128_errors(self.base64_hash@, parent, Field::Base64Hash)
            + max_128_errors(self.pbkdf2_salt@, parent, Field::Pbkdf2Salt)
    }

    fn push_errors(&self, errs: &mut Vec<FieldError>, parent: Option<ParentField>)
        ensures
            final(errs)@ == old(errs)@ + self.errors_under(parent),
    {
        let ghost before = errs@;
        push_max_128_errors(errs, &self.base64_hash, parent, Field::Base64Hash);
        push_max_128_errors(errs, &self.pbkdf2_salt, parent, Field::Pbkdf2Salt);
        assert(errs@ =~= before + self.errors_under(parent));
    }

    /// Checks the rules of the request.
    pub fn validate(&self) -> (r: Result<(), ValidationErrors>)
        ensures
            outcome(self.errors_under(None), r),
    {
        let mut errs = Vec::new();
        self.push_errors(&mut errs, None);
        assert(errs@ =~= self.errors_under(None));
        finish(errs)
    }
}

/// Sign up a new account. Only PBKDF2-SHA256 is accepted.
#[derive(Debug)]
pub struct Signup {
    pub username: String,
    pub email: String,
    pub password: ClientDerivedPassword,
}

impl Signup {
    /// Rules: a valid username, a valid lower-case e-mail, a valid password.
    pub open spec fn errors(&self) -> Seq<FieldError> {
        username_errors(self.username@, None) + email_errors(self.email@, None)
            + self.password.errors_under(Some(ParentField::Password))
    }

    /// Checks the rules of the request.
    pub fn validate(&self) -> (r: Result<(), ValidationErrors>)
        ensures
            outcome(self.errors(), r),
            !self.email@.contains('@') ==> r is Err,
    {
        let mut errs = Vec::new();
        push_username_errors(&mut errs, &self.username, None);
        push_email_errors(&mut errs, &self.email, None);
        self.password.push_errors(&mut errs, Some(ParentField::Password));
        assert(errs@ =~= self.errors());
        finish(errs)
    }
}

/// Log in with a username.
#[derive(Debug)]
pub struct LoginWithUsername {
    pub username: String,
    pub client_password_hash: String,
}

impl LoginWithUsername {
    /// Rules: a valid username and a password hash of at most 128 characters.
    pub open spec fn errors(&self) -> Seq<FieldError> {
        username_errors(self.username@, None)
            + max_128_errors(self.client_password_hash@, None, Field::ClientPasswordHash)
    }

    /// Checks the rules of the request.
    pub fn validate(&self) -> (r: Result<(), ValidationErrors>)
        ensures
            outcome(self.errors(), r),
    {
        let mut errs = Vec::new();
        push_username_errors(&mut errs, &self.username, None);
        push_max_128_errors(&mut errs, &self.client_password_hash, None, Field::ClientPasswordHash);
        assert(errs@ =~= self.errors());
        finish(errs)
    }
}

/// Log in with an e-mail address.
#[derive(Debug)]
pub struct LoginWithEmail {
    pub email: String,
    pub client_password_hash: String,
}

impl LoginWithEmail {
    /// Rules: a valid lower-case e-mail and a password hash of at most 128 characters.
    pub open spec fn errors(&self) -> Seq<FieldError> {
        email_errors(self.email@, None)
            + max_128_errors(self.client_password_hash@, None, Field::ClientPasswordHash)
    }

    /// Checks the rules of the request.
    pub fn validate(&self) -> (r: Result<(), ValidationErrors>)
        ensures
            outcome(self.errors(), r),
            !self.email@.contains('@') ==> r is Err,
    {
        let mut errs = Vec::new();
        push_email_errors(&mut errs, &self.email, None);
        push_max_128_errors(&mut errs, &self.client_password_hash, None, Field::ClientPasswordHash);
        assert(errs@ =~= self.errors());
        finish(errs)
    }
}

/// Request only containing a username.
#[derive(Debug)]
pub struct Username {
    pub username: String,
}

impl Username {
    /// Rules: a valid username.
    pub open spec fn errors_under(&self, parent: Option<ParentField>) -> Seq<FieldError> {
        username_errors(self.username@, parent)
    }

    /// Checks the rules of the request.
    pub fn validate(&self) -> (r: Result<(), ValidationErrors>)
        ensures
            outcome(self.errors_under(None), r),
    {
        let mut errs = Vec::new();
        push_username_errors(&mut errs, &self.username, None);
        assert(errs@ =~= self.errors_under(None));
        finish(errs)
    }
}

/// Request only containing an e-mail address.
#[derive(Debug)]
pub struct Email {
    pub email: String,
}

impl Email {
    /// Rules: a valid lower-case e-mail.
    pub open spec fn errors_under(&self, parent: Option<ParentField>) -> Seq<FieldError> {
        email_errors(self.email@, parent)
    }

    /// Checks the rules of the request.
    pub fn validate(&self) -> (r: Result<(), ValidationErrors>)
        ensures
            outcome(self.errors_under(None), r),
            !self.email@.contains('@') ==> r is Err,
    {
        let mut errs = Vec::new();
        push_email_errors(&mut errs, &self.email, None);
        assert(errs@ =~= self.errors_under(None));
        finish(errs)
    }
}

/// Identify accounts by public or private identifiers.
#[derive(Debug)]
pub enum AccountIdentifier {
    Email(Email),
    Username(Username),
    Id(AccountId),
}

/// `s` holds the character `c`.
pub open spec fn holds_char(s: Seq<char>, c: char) -> bool {
    exists|i: int| 0 <= i < s.len() && s[i] == c
}

fn contains_at(s: &String) -> (r: bool)
    ensures
        r == holds_char(s@, '@'),
{
    let n = s.as_str().unicode_len();
    let mut i: usize = 0;
    while i < n
        invariant
            i <= n,
            n == s@.len(),
            forall|j: int| 0 <= j < i ==> s@[j] != '@',
        decreases n - i,
    {
        if s.as_str().get_char(i) == '@' {
            return true;
        }
        i = i + 1;
    }
    false
}

impl AccountIdentifier {
    /// Rules of the identifier: those of the e-mail or the username it holds;
    /// an id has none.
    pub open spec fn errors_under(&self, parent: Option<ParentField>) -> Seq<FieldError> {
        match self {
            AccountIdentifier::Email(e) => e.errors_under(parent),
            AccountIdentifier::Username(u) => u.errors_under(parent),
            AccountIdentifier::Id(_) => Seq::empty(),
        }
    }

    fn push_errors(&self, errs: &mut Vec<FieldError>, parent: Option<ParentField>)
        ensures
            final(errs)@ == old(errs)@ + self.errors_under(parent),
    {
        match self {
            AccountIdentifier::Email(e) => push_email_errors(errs, &e.email, parent),
            AccountIdentifier::Username(u) => push_username_errors(errs, &u.username, parent),
            AccountIdentifier::Id(_) => {
                assert(old(errs)@ + self.errors_under(parent) =~= old(errs)@);
            },
        }
    }

    /// Checks the rules of the identifier.
    pub fn validate(&self) -> (r: Result<(), ValidationErrors>)
        ensures
            outcome(self.errors_under(None), r),
    {
        let mut errs = Vec::new();
        self.push_errors(&mut errs, None);
        assert(errs@ =~= self.errors_under(None));
        finish(errs)
    }

    /// Reads an identifier: an account id if `s` parses as one, else an
    /// e-mail if it holds `@`, else a username.
    pub fn parse(s: String) -> (r: AccountIdentifier)
        ensures
            match parse_u64(s@) {
                Some(v) => r == AccountIdentifier::Id(AccountId(v)),
                None => if holds_char(s@, '@') {
                    r matches AccountIdentifier::Email(e) && e.email@ == s@
                } else {
                    r matches AccountIdentifier::Username(u) && u.username@ == s@
                },
            },
    {
        match AccountId::from_str(s.as_str()) {
            Some(id) => AccountIdentifier::Id(id),
            None => {
                if contains_at(&s) {
                    AccountIdentifier::Email(Email { email: s })
                } else {
                    AccountIdentifier::Username(Username { username: s })
                }
            },
        }
    }
}

/// Identify accounts only by public identifiers.
#[derive(Debug)]
pub enum PublicAccountIdentifier {
    Username(Username),
    Id(AccountId),
}

impl PublicAccountIdentifier {
    /// Rules of the identifier: those of the username it holds; an id has none.
    pub open spec fn errors_under(&self, parent: Option<ParentField>) -> Seq<FieldError> {
        match self {
            PublicAccountIdentifier::Username(u) => u.errors_under(parent),
            PublicAccountIdentifier::Id(_) => Seq::empty(),
        }
    }

    /// Checks the rules of the identifier.
    pub fn validate(&self) -> (r: Result<(), ValidationErrors>)
        ensures
            outcome(self.errors_under(None), r),
    {
        let mut errs = Vec::new();
        match self {
            PublicAccountIdentifier::Username(u) => push_username_errors(&mut errs, &u.username, None),
            PublicAccountIdentifier::Id(_) => {},
        }
        assert(errs@ =~= self.errors_under(None));
        finish(errs)
    }

    /// Reads an identifier: an account id if `s` parses as one, else a username.
    pub fn parse(s: String) -> (r: PublicAccountIdentifier)
        ensures
            match parse_u64(s@) {
                Some(v) => r == PublicAccountIdentifier::Id(AccountId(v)),
                None => r matches PublicAccountIdentifier::Username(u) && u.username@ == s@,
            },
    {
        match AccountId::from_str(s.as_str()) {
            Some(id) => PublicAccountIdentifier::Id(id),
            None => PublicAccountIdentifier::Username(Username { username: s }),
        }
    }
}

/// Log in with any account identifier.
#[derive(Debug)]
pub struct Login {
    pub account: AccountIdentifier,
    pub client_password_hash: String,
}

impl Login {
    /// Rules: a valid identifier and a password hash of at most 128 characters.
    pub open spec fn errors(&self) -> Seq<FieldError> {
        self.account.errors_under(Some(ParentField::Account))
            + max_128_errors(self.client_password_hash@, None, Field::ClientPasswordHash)
    }

    /// Checks the rules of the request.
    pub fn validate(&self) -> (r: Result<(), ValidationErrors>)
        ensures
            outcome(self.errors(), r),
    {
        let mut errs = Vec::new();
        self.account.push_errors(&mut errs, Some(ParentField::Account));
        push_max_128_errors(&mut errs, &self.client_password_hash, None, Field::ClientPasswordHash);
        assert(errs@ =~= self.errors());
        finish(errs)
    }
}

/// Change the account password.
#[derive(Debug)]
pub struct ChangePassword {
    pub current_password_hash: String,
    pub new_password: ClientDerivedPassword,
}

impl ChangePassword {
    /// Rules: a current hash of at most 128 characters and a valid new password.
    pub open spec fn errors(&self) -> Seq<FieldError> {
        max_128_errors(self.current_password_hash@, None, Field::CurrentPasswordHash)
            + self.new_password.errors_under(Some(ParentField::NewPassword))
    }

    /// Checks the rules of the request.
    pub fn validate(&self) -> (r: Result<(), ValidationErrors>)
        ensures
            outcome(self.errors(), r),
    {
        let mut errs = Vec::new();
        push_max_128_errors(&mut errs, &self.current_password_hash, None, Field::CurrentPasswordHash);
        self.new_password.push_errors(&mut errs, Some(ParentField::NewPassword));
        assert(errs@ =~= self.errors());
        finish(errs)
    }
}

/// Request containing a token.
#[derive(Debug)]
pub struct Token {
    pub token: String,
}

/// Request containing a CAPTCHA response.
#[derive(Debug)]
pub struct Captcha {
    pub captcha: String,
}

} // verus!
