//! Repository errors.

use vstd::prelude::*;

verus! {

/// Repository error reporting. Internal errors must be redacted before they
/// reach the public.
#[derive(Debug)]
pub enum RepoError {
    Internal(&'static str),
}

/// Repository result type.
pub type RepoResult<T> = Result<T, RepoError>;

} // verus!
