//! The credentials that requests carry in their `Authorization` header: a
//! bearer token for sessions, and basic credentials for applications.

use vstd::prelude::*;
use vstd::utf8::{decode_utf8, valid_utf8};
use base64::Engine;
use base64::engine::general_purpose::STANDARD;
use crate::ids::{parse_u64, ApplicationId};

verus! {

/// A character with the Unicode White_Space property.
pub open spec fn is_white_space(c: char) -> bool {
    ||| '\u{9}' <= c <= '\u{d}'
    ||| c == ' '
    ||| c == '\u{85}'
    ||| c == '\u{a0}'
    ||| c == '\u{1680}'
    ||| '\u{2000}' <= c <= '\u{200a}'
    ||| c == '\u{2028}'
    ||| c == '\u{2029}'
    ||| c == '\u{202f}'
    ||| c == '\u{205f}'
    ||| c == '\u{3000}'
}

/// `s` without its leading white space.
pub open spec fn trim_start(s: Seq<char>) -> Seq<char>
    decreases s.len(),
{
    if s.len() > 0 && is_white_space(s[0]) {
        trim_start(s.drop_first())
    } else {
        s
    }
}

/// `s` without its trailing white space.
pub open spec fn trim_end(s: Seq<char>) -> Seq<char>
    decreases s.len(),
{
    if s.len() > 0 && is_white_space(s.last()) {
        trim_end(s.drop_last())
    } else {
        s
    }
}

/// What `str::trim` leaves of `s`: `s` without its leading and trailing
/// white space.
pub open spec fn trimmed(s: Seq<char>) -> Seq<char> {
    trim_end(trim_start(s))
}

/// Calls `str::trim`, which the documentation says removes the leading and
/// trailing characters that have the Unicode White_Space property.
#[verifier::external_body]
fn trim_whitespace(s: &str) -> (r: &str)
    ensures
        r@ == trimmed(s@),
{
    s.trim()
}

/// What the standard base64 engine (standard alphabet, padded) decodes the
/// text into; `None` where it refuses the text.
pub uninterp spec fn base64_standard_decoded(s: Seq<char>) -> Option<Seq<u8>>;

/// Calls `base64::Engine::decode` of `base64::engine::general_purpose::STANDARD`
/// on the text. Its result is named `base64_standard_decoded`; a decoding
/// error becomes `None`.
#[verifier::external_body]
fn decode_base64_standard(s: &str) -> (r: Option<Vec<u8>>)
    ensures
        match r {
            Some(v) => base64_standard_decoded(s@) == Some(v@),
            None => base64_standard_decoded(s@) is None,
        },
{
    STANDARD.decode(s).ok()
}

/// Calls `String::from_utf8`: the bytes as text if they are valid UTF-8,
/// `None` otherwise.
#[verifier::external_body]
fn string_from_utf8(bytes: Vec<u8>) -> (r: Option<String>)
    ensures
        match r {
            Some(s) => valid_utf8(bytes@) && s@ == decode_utf8(bytes@),
            None => !valid_utf8(bytes@),
        },
{
    String::from_utf8(bytes).ok()
}

/// `s` with `prefix` taken off its front, if it starts with `prefix`.
pub open spec fn stripped(s: Seq<char>, prefix: Seq<char>) -> Option<Seq<char>> {
    if prefix.len() <= s.len() && s.take(prefix.len() as int) == prefix {
        Some(s.skip(prefix.len() as int))
    } else {
        None
    }
}

/// Takes `prefix` off the front of `s`, as `str::strip_prefix` does.
pub fn strip_prefix<'a>(s: &'a str, prefix: &str) -> (r: Option<&'a str>)
    ensures
        match r {
            Some(t) => stripped(s@, prefix@) == Some(t@),
            None => stripped(s@, prefix@) is None,
        },
{
    let n = s.unicode_len();
    let m = prefix.unicode_len();
    if m > n {
        return None;
    }
    let mut i: usize = 0;
    while i < m
        invariant
            i <= m <= n,
            n == s@.len(),
            m == prefix@.len(),
            forall|j: int| 0 <= j < i ==> s@[j] == prefix@[j],
        decreases m - i,
    {
        if s.get_char(i) != prefix.get_char(i) {
            assert(s@.take(m as int)[i as int] != prefix@[i as int]);
            return None;
        }
        i = i + 1;
    }
    assert(s@.take(m as int) =~= prefix@);
    let t = s.substring_char(m, n);
    assert(t@ =~= s@.skip(m as int));
    Some(t)
}

/// The index of the first `c` in `s`, if `s` has one.
pub open spec fn first_index_of(s: Seq<char>, c: char, i: int) -> bool {
    &&& 0 <= i < s.len()
    &&& s[i] == c
    &&& forall|j: int| 0 <= j < i ==> s[j] != c
}

/// `s` split around its first `c`, if it has one.
pub open spec fn split_at_first(s: Seq<char>, c: char) -> Option<(Seq<char>, Seq<char>)> {
    if s.contains(c) {
        let i = choose|i: int| first_index_of(s, c, i);
        Some((s.take(i), s.skip(i + 1)))
    } else {
        None
    }
}

/// Splits `s` around its first `c`, as `str::split_once` does with a
/// character.
pub fn split_once<'a>(s: &'a str, c: char) -> (r: Option<(&'a str, &'a str)>)
    ensures
        match r {
            Some((a, b)) => split_at_first(s@, c) == Some((a@, b@)),
            None => split_at_first(s@, c) is None,
        },
{
    let n = s.unicode_len();
    let mut i: usize = 0;
    while i < n
        invariant
            i <= n,
            n == s@.len(),
            forall|j: int| 0 <= j < i ==> s@[j] != c,
        decreases n - i,
    {
        if s.get_char(i) == c {
            proof {
                assert(first_index_of(s@, c, i as int));
                assert(s@.contains(c));
                let k = choose|k: int| first_index_of(s@, c, k);
                if k < i {
                    assert(s@[k] != c);
                }
                if k > i {
                    assert(s@[i as int] != c);
                }
            }
            let a = s.substring_char(0, i);
            let b = s.substring_char(i + 1, n);
            assert(a@ =~= s@.take(i as int));
            assert(b@ =~= s@.skip(i + 1));
            return Some((a, b));
        }
        i = i + 1;
    }
    proof {
        if s@.contains(c) {
            let j = choose|j: int| 0 <= j < s@.len() && s@[j] == c;
            assert(s@[j] != c);
        }
    }
    None
}

/// The token of a bearer `Authorization` header: the trimmed value without
/// its `Bearer ` prefix.
pub open spec fn bearer_token(header: Option<Seq<char>>) -> Option<Seq<char>> {
    match header {
        None => None,
        Some(h) => stripped(trimmed(h), "Bearer "@),
    }
}

/// The application id and client secret of a basic `Authorization` header:
/// the trimmed value without its `Basic ` prefix, base64-decoded, read as
/// UTF-8 and split at its first `:` into a decimal id and the secret.
pub open spec fn basic_credentials(header: Option<Seq<char>>) -> Option<(ApplicationId, Seq<char>)> {
    match header {
        None => None,
        Some(h) => match stripped(trimmed(h), "Basic "@) {
            None => None,
            Some(encoded) => match base64_standard_decoded(encoded) {
                None => None,
                Some(bytes) => if !valid_utf8(bytes) {
                    None
                } else {
                    match split_at_first(decode_utf8(bytes), ':') {
                        None => None,
                        Some((id, secret)) => match parse_u64(id) {
                            None => None,
                            Some(v) => Some((ApplicationId(v), secret)),
                        },
                    }
                },
            },
        },
    }
}

/// The view of an optional header value.
pub open spec fn header_view(header: Option<&str>) -> Option<Seq<char>> {
    match header {
        Some(h) => Some(h@),
        None => None,
    }
}

/// Extracts the bearer token from the value of the `Authorization` header.
pub fn extract_bearer_token(authorization: Option<&str>) -> (r: Option<String>)
    ensures
        match r {
            Some(t) => bearer_token(header_view(authorization)) == Some(t@),
            None => bearer_token(header_view(authorization)) is None,
        },
{
    let header = match authorization {
        Some(h) => h,
        None => return None,
    };
    let prefix = "Bearer ";
    let trimmed_header = trim_whitespace(header);
    match strip_prefix(trimmed_header, prefix) {
        Some(t) => Some(t.to_owned()),
        None => None,
    }
}

/// Parses the application id and client secret from the value of the
/// `Authorization` header.
pub fn parse_basic_credentials(authorization: Option<&str>) -> (r: Option<(ApplicationId, String)>)
    ensures
        match r {
            Some((id, secret)) => basic_credentials(header_view(authorization)) == Some((id, secret@)),
            None => basic_credentials(header_view(authorization)) is None,
        },
{
    let header = match authorization {
        Some(h) => h,
        None => return None,
    };
    let prefix = "Basic ";
    let encoded = match strip_prefix(trim_whitespace(header), prefix) {
        Some(e) => e,
        None => return None,
    };
    let bytes = match decode_base64_standard(encoded) {
        Some(b) => b,
        None => return None,
    };
    let text = match string_from_utf8(bytes) {
        Some(t) => t,
        None => return None,
    };
    let (id_text, secret_text) = match split_once(text.as_str(), ':') {
        Some(parts) => parts,
        None => return None,
    };
    match ApplicationId::from_str(id_text) {
        Some(id) => Some((id, secret_text.to_owned())),
        None => None,
    }
}

} // verus!
