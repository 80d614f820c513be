//! Account and application identifiers.

use vstd::prelude::*;

verus! {

/// Unique account identifier.
#[derive(Clone, Copy, PartialEq, Eq, Structural, Debug, Hash)]
pub struct AccountId(pub u64);

/// Unique identifier of a third-party application.
#[derive(Clone, Copy, PartialEq, Eq, Structural, Debug, Hash)]
pub struct ApplicationId(pub u64);

/// Version of an account master key.
#[derive(Clone, Copy, PartialEq, Eq, Structural, Debug, Hash)]
pub struct MasterKeyId(pub u64);

/// `c` is an ASCII decimal digit.
pub open spec fn is_digit(c: char) -> bool {
    '0' <= c && c <= '9'
}

/// Value of an ASCII decimal digit.
pub open spec fn digit_value(c: char) -> nat {
    (c as int - '0' as int) as nat
}

/// Every character of `s` is a decimal digit.
pub open spec fn all_digits(s: Seq<char>) -> bool {
    forall|i: int| 0 <= i < s.len() ==> is_digit(#[trigger] s[i])
}

/// The number that the digits of `s` spell in base ten (most significant first).
pub open spec fn decimal_value(s: Seq<char>) -> nat
    decreases s.len(),
{
    if s.len() == 0 {
        0
    } else {
        decimal_value(s.drop_last()) * 10 + digit_value(s.last())
    }
}

/// The digits that follow an optional leading `+`.
pub open spec fn unsigned_body(s: Seq<char>) -> Seq<char> {
    if s.len() > 0 && s[0] == '+' {
        s.drop_first()
    } else {
        s
    }
}

/// What `u64::from_str` accepts: an optional `+`, then one or more decimal
/// digits whose value fits in 64 bits.
pub open spec fn parse_u64(s: Seq<char>) -> Option<u64> {
    let body = unsigned_body(s);
    if body.len() > 0 && all_digits(body) && decimal_value(body) <= u64::MAX {
        Some(decimal_value(body) as u64)
    } else {
        None
    }
}

/// Parses a decimal `u64` the way `u64::from_str` does.
pub fn parse_decimal_u64(s: &str) -> (r: Option<u64>)
    ensures
        r == parse_u64(s@),
{
    let n = s.unicode_len();
    let mut start: usize = 0;
    if n > 0 && s.get_char(0) == '+' {
        start = 1;
    }
    let ghost body = unsigned_body(s@);
    assert(body =~= s@.subrange(start as int, n as int));
    if start >= n {
        assert(body.len() == 0);
        return None;
    }
    let mut value: u64 = 0;
    let mut overflow = false;
    let mut i = start;
    while i < n
        invariant
            start <= i <= n,
            n == s@.len(),
            start < n,
            body == unsigned_body(s@),
            body =~= s@.subrange(start as int, n as int),
            all_digits(body.take(i - start)),
            !overflow ==> value == decimal_value(body.take(i - start)),
            overflow ==> decimal_value(body.take(i - start)) > u64::MAX,
        decreases n - i,
    {
        let c = s.get_char(i);
        if !('0' <= c && c <= '9') {
            assert(body[i - start] == c);
            assert(!is_digit(body[i - start]));
            assert(!all_digits(body));
            return None;
        }
        let d = (c as u32 - '0' as u32) as u64;
        assert(body.take(i + 1 - start).drop_last() =~= body.take(i - start));
        assert(body.take(i + 1 - start).last() == c);
        if !overflow {
            match value.checked_mul(10) {
                Some(v10) => match v10.checked_add(d) {
                    Some(v) => {
                        value = v;
                    },
                    None => {
                        overflow = true;
                    },
                },
                None => {
                    overflow = true;
                },
            }
        } else {
            assert(decimal_value(body.take(i + 1 - start)) >= decimal_value(body.take(i - start)) * 10) by (nonlinear_arith)
                requires
                    decimal_value(body.take(i + 1 - start)) == decimal_value(body.take(i - start)) * 10 + digit_value(c),
            ;
        }
        assert(all_digits(body.take(i + 1 - start)));
        i = i + 1;
    }
    assert(body.take(n - start) =~= body);
    if overflow {
        None
    } else {
        Some(value)
    }
}

impl AccountId {
    /// Parses an account id from its decimal form.
    pub fn from_str(s: &str) -> (r: Option<AccountId>)
        ensures
            r == (match parse_u64(s@) {
                Some(v) => Some(AccountId(v)),
                None => None,
            }),
    {
        match parse_decimal_u64(s) {
            Some(v) => Some(AccountId(v)),
            None => None,
        }
    }
}

impl ApplicationId {
    /// Parses an application id from its decimal form.
    pub fn from_str(s: &str) -> (r: Option<ApplicationId>)
        ensures
            r == (match parse_u64(s@) {
                Some(v) => Some(ApplicationId(v)),
                None => None,
            }),
    {
        match parse_decimal_u64(s) {
            Some(v) => Some(ApplicationId(v)),
            None => None,
        }
    }
}

} // verus!
