//! Authorization code repository: one-time codes that an application
//! exchanges for the account that authorized it.

use vstd::prelude::*;
use crate::ids::{AccountId, ApplicationId};
use crate::keyed::{
    has_key, keys_unique, lemma_lookup_index, lemma_lookup_none, lemma_lookup_push,
    lemma_lookup_remove, lemma_lookup_update, lemma_unique_push, lookup,
};
use crate::repo::error::RepoResult;

verus! {

/// A stored code: the application, the code, and the account it stands for.
pub struct AuthorizationCodeEntry {
    application_id: ApplicationId,
    authorization_code: String,
    account_id: AccountId,
}

/// Mock authorization code repo implementation.
pub struct MockAuthorizationCodeRepoImpl {
    authorization_codes: Vec<AuthorizationCodeEntry>,
}

/// What `create` leaves: the code stored for the account.
pub open spec fn code_created(
    old: MockAuthorizationCodeRepoImpl,
    new: MockAuthorizationCodeRepoImpl,
    account_id: AccountId,
    application_id: ApplicationId,
    code: Seq<char>,
) -> bool {
    forall|a: ApplicationId, c: Seq<char>| #[trigger] new.code(a, c) == if a == application_id && c == code {
        Some(account_id)
    } else {
        old.code(a, c)
    }
}

/// What `consume` leaves and returns: the code gone, and the account it
/// stood for, if it was stored.
pub open spec fn code_consumed(
    old: MockAuthorizationCodeRepoImpl,
    new: MockAuthorizationCodeRepoImpl,
    application_id: ApplicationId,
    code: Seq<char>,
    r: Option<AccountId>,
) -> bool {
    &&& r == old.code(application_id, code)
    &&& forall|a: ApplicationId, c: Seq<char>| #[trigger] new.code(a, c) == if a == application_id && c == code {
        None
    } else {
        old.code(a, c)
    }
}

impl MockAuthorizationCodeRepoImpl {
    /// The stored codes, keyed by application and code.
    pub closed spec fn codes_seq(&self) -> Seq<((ApplicationId, Seq<char>), AccountId)> {
        self.authorization_codes@.map_values(
            |e: AuthorizationCodeEntry| ((e.application_id, e.authorization_code@), e.account_id),
        )
    }

    /// No code is stored twice for one application.
    pub closed spec fn wf(&self) -> bool {
        keys_unique(self.codes_seq())
    }

    /// The account that the code of the application stands for, if it is
    /// stored.
    pub open spec fn code(&self, application_id: ApplicationId, code: Seq<char>) -> Option<AccountId> {
        lookup(self.codes_seq(), (application_id, code))
    }

    /// Creates an empty repository.
    pub fn new() -> (r: Self)
        ensures
            r.wf(),
            forall|a: ApplicationId, c: Seq<char>| r.code(a, c) is None,
    {
        let r = MockAuthorizationCodeRepoImpl { authorization_codes: Vec::new() };
        assert(r.codes_seq() =~= Seq::empty());
        r
    }

    /// Create a new mock repository.
    pub fn boxed_new() -> (r: Box<Self>)
        ensures
            r.wf(),
            forall|a: ApplicationId, c: Seq<char>| r.code(a, c) is None,
    {
        Box::new(Self::new())
    }

    fn find(&self, application_id: ApplicationId, code: &String) -> (r: Option<usize>)
        requires
            self.wf(),
        ensures
            match r {
                Some(i) => i < self.authorization_codes@.len()
                    && self.codes_seq()[i as int].0 == (application_id, code@)
                    && self.code(application_id, code@) == Some(self.authorization_codes@[i as int].account_id),
                None => self.code(application_id, code@) is None
                    && !has_key(self.codes_seq(), (application_id, code@)),
            },
    {
        let mut i: usize = 0;
        while i < self.authorization_codes.len()
            invariant
                i <= self.authorization_codes.len(),
                self.wf(),
                forall|j: int| 0 <= j < i ==> self.codes_seq()[j].0 != (application_id, code@),
            decreases self.authorization_codes.len() - i,
        {
            let e = &self.authorization_codes[i];
            if e.application_id == application_id && e.authorization_code.eq(code) {
                proof {
                    lemma_lookup_index(self.codes_seq(), i as int);
                }
                return Some(i);
            }
            i = i + 1;
        }
        proof {
            let key = (application_id, code@);
            assert(!has_key(self.codes_seq(), key)) by {
                if has_key(self.codes_seq(), key) {
                    let j = choose|j: int| 0 <= j < self.codes_seq().len() && self.codes_seq()[j].0 == key;
                    assert(self.codes_seq()[j].0 != key);
                }
            }
            lemma_lookup_none(self.codes_seq(), key);
        }
        None
    }

    /// Stores `authorization_code` as a code of the application for the
    /// account, and returns it. The code is drawn at random by the caller.
    pub fn create(&mut self, account_id: AccountId, application_id: ApplicationId, authorization_code: String) -> (r: RepoResult<String>)
        requires
            old(self).wf(),
        ensures
            final(self).wf(),
            r matches Ok(c) && c@ == authorization_code@,
            code_created(*old(self), *final(self), account_id, application_id, authorization_code@),
    {
        let ghost s0 = self.codes_seq();
        let ghost key = (application_id, authorization_code@);
        let returned = authorization_code.clone();
        let entry = AuthorizationCodeEntry { application_id, authorization_code, account_id };
        match self.find(application_id, &entry.authorization_code) {
            Some(i) => {
                self.authorization_codes.set(i, entry);
                proof {
                    assert(self.codes_seq() =~= s0.update(i as int, (s0[i as int].0, account_id)));
                    assert forall|a: ApplicationId, c: Seq<char>| #[trigger] self.code(a, c) == if a == application_id
                        && c == authorization_code@ {
                        Some(account_id)
                    } else {
                        old(self).code(a, c)
                    } by {
                        lemma_lookup_update(s0, i as int, account_id, (a, c));
                    }
                    lemma_lookup_update(s0, i as int, account_id, key);
                }
            },
            None => {
                self.authorization_codes.push(entry);
                proof {
                    assert(self.codes_seq() =~= s0.push((key, account_id)));
                    lemma_unique_push(s0, key, account_id);
                    assert forall|a: ApplicationId, c: Seq<char>| #[trigger] self.code(a, c) == if a == application_id
                        && c == authorization_code@ {
                        Some(account_id)
                    } else {
                        old(self).code(a, c)
                    } by {
                        lemma_lookup_push(s0, key, account_id, (a, c));
                    }
                }
            },
        }
        Ok(returned)
    }

    /// Removes the code of the application and returns the account that it
    /// stood for; `None` if the code is not stored.
    pub fn consume(&mut self, application_id: ApplicationId, authorization_code: &str) -> (r: RepoResult<Option<AccountId>>)
        requires
            old(self).wf(),
        ensures
            final(self).wf(),
            r matches Ok(found) && code_consumed(*old(self), *final(self), application_id, authorization_code@, found),
    {
        let ghost s0 = self.codes_seq();
        let key = authorization_code.to_owned();
        match self.find(application_id, &key) {
            Some(i) => {
                let e = self.authorization_codes.remove(i);
                proof {
                    assert(self.codes_seq() =~= s0.remove(i as int));
                    assert forall|a: ApplicationId, c: Seq<char>| #[trigger] self.code(a, c) == if a == application_id
                        && c == authorization_code@ {
                        None
                    } else {
                        old(self).code(a, c)
                    } by {
                        lemma_lookup_remove(s0, i as int, (a, c));
                    }
                }
                Ok(Some(e.account_id))
            },
            None => {
                proof {
                    assert forall|a: ApplicationId, c: Seq<char>| #[trigger] self.code(a, c) == if a == application_id
                        && c == authorization_code@ {
                        None
                    } else {
                        old(self).code(a, c)
                    } by {}
                }
                Ok(None)
            },
        }
    }
}

/// A code that was created is consumed for the account it was created
/// for; consuming it a second time finds nothing.
pub proof fn law_code_consumed_once(
    s0: MockAuthorizationCodeRepoImpl,
    s1: MockAuthorizationCodeRepoImpl,
    s2: MockAuthorizationCodeRepoImpl,
    s3: MockAuthorizationCodeRepoImpl,
    account_id: AccountId,
    application_id: ApplicationId,
    code: Seq<char>,
    first: Option<AccountId>,
    second: Option<AccountId>,
)
    requires
        code_created(s0, s1, account_id, application_id, code),
        code_consumed(s1, s2, application_id, code, first),
        code_consumed(s2, s3, application_id, code, second),
    ensures
        first == Some(account_id),
        second is None,
{
    assert(s1.code(application_id, code) == s1.code(application_id, code));
    assert(s2.code(application_id, code) == s2.code(application_id, code));
}

} // verus!
