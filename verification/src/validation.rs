//! Field-level validation rules shared by the request types.

use vstd::prelude::*;
use validator::ValidateEmail;

verus! {

/// `c` is in `a-z`.
pub open spec fn is_lower_alpha(c: char) -> bool {
    'a' <= c && c <= 'z'
}

/// `c` is in `a-z0-9`.
pub open spec fn is_lower_alnum(c: char) -> bool {
    is_lower_alpha(c) || ('0' <= c && c <= '9')
}

/// `c` is one of the username separators `_` and `.`.
pub open spec fn is_separator(c: char) -> bool {
    c == '_' || c == '.'
}

/// `s` is a repetition of the group `[_.]?[a-z0-9]`.
pub open spec fn username_groups(s: Seq<char>) -> bool
    decreases s.len(),
{
    if s.len() == 0 {
        true
    } else if is_lower_alnum(s[0]) {
        username_groups(s.drop_first())
    } else if s.len() >= 2 && is_separator(s[0]) && is_lower_alnum(s[1]) {
        username_groups(s.subrange(2, s.len() as int))
    } else {
        false
    }
}

/// `s` matches the username pattern `^[a-z]([_.]?[a-z0-9])*$`.
pub open spec fn matches_username_pattern(s: Seq<char>) -> bool {
    s.len() >= 1 && is_lower_alpha(s[0]) && username_groups(s.drop_first())
}

/// Character `i` of `s` can stand in a run of groups: it is a letter or
/// digit, or a separator directly followed by one.
pub open spec fn group_char_ok(s: Seq<char>, i: int) -> bool {
    is_lower_alnum(s[i]) || (is_separator(s[i]) && i + 1 < s.len() && is_lower_alnum(s[i + 1]))
}

proof fn lemma_username_groups_local(s: Seq<char>)
    ensures
        username_groups(s) <==> (forall|i: int| 0 <= i < s.len() ==> group_char_ok(s, i)),
    decreases s.len(),
{
    if s.len() == 0 {
    } else if is_lower_alnum(s[0]) {
        let t = s.drop_first();
        lemma_username_groups_local(t);
        assert forall|j: int| 0 <= j < t.len() implies group_char_ok(t, j) == group_char_ok(
            s,
            j + 1,
        ) by {}
        if forall|i: int| 0 <= i < s.len() ==> group_char_ok(s, i) {
            assert forall|j: int| 0 <= j < t.len() implies group_char_ok(t, j) by {
                assert(group_char_ok(s, j + 1));
            }
        }
        if username_groups(s) {
            assert forall|i: int| 0 <= i < s.len() implies group_char_ok(s, i) by {
                if i > 0 {
                    assert(group_char_ok(t, i - 1));
                }
            }
        }
    } else if s.len() >= 2 && is_separator(s[0]) && is_lower_alnum(s[1]) {
        let t = s.subrange(2, s.len() as int);
        lemma_username_groups_local(t);
        assert forall|j: int| 0 <= j < t.len() implies group_char_ok(t, j) == group_char_ok(
            s,
            j + 2,
        ) by {}
        if forall|i: int| 0 <= i < s.len() ==> group_char_ok(s, i) {
            assert forall|j: int| 0 <= j < t.len() implies group_char_ok(t, j) by {
                assert(group_char_ok(s, j + 2));
            }
        }
        if username_groups(s) {
            assert forall|i: int| 0 <= i < s.len() implies group_char_ok(s, i) by {
                if i > 1 {
                    assert(group_char_ok(t, i - 2));
                }
            }
        }
    } else {
        assert(!group_char_ok(s, 0));
    }
}

fn is_lower_alpha_exec(c: char) -> (r: bool)
    ensures
        r == is_lower_alpha(c),
{
    'a' <= c && c <= 'z'
}

fn is_lower_alnum_exec(c: char) -> (r: bool)
    ensures
        r == is_lower_alnum(c),
{
    ('a' <= c && c <= 'z') || ('0' <= c && c <= '9')
}

/// Tests `s` against the username pattern `^[a-z]([_.]?[a-z0-9])*$`.
pub fn matches_username(s: &str) -> (r: bool)
    ensures
        r == matches_username_pattern(s@),
{
    let n = s.unicode_len();
    if n == 0 {
        return false;
    }
    if !is_lower_alpha_exec(s.get_char(0)) {
        return false;
    }
    let ghost t = s@.drop_first();
    proof {
        lemma_username_groups_local(t);
    }
    let mut i: usize = 1;
    while i < n
        invariant
            1 <= i <= n,
            n == s@.len(),
            t == s@.drop_first(),
            is_lower_alpha(s@[0]),
            username_groups(t) <==> (forall|j: int| 0 <= j < t.len() ==> group_char_ok(t, j)),
            forall|j: int| 0 <= j < i - 1 ==> group_char_ok(t, j),
        decreases n - i,
    {
        let c = s.get_char(i);
        let ok = if is_lower_alnum_exec(c) {
            true
        } else if (c == '_' || c == '.') && i + 1 < n {
            is_lower_alnum_exec(s.get_char(i + 1))
        } else {
            false
        };
        assert(t[i - 1] == c);
        if i + 1 < n {
            assert(t[i as int] == s@[i + 1]);
        }
        if !ok {
            assert(!group_char_ok(t, i - 1));
            return false;
        }
        assert(group_char_ok(t, i - 1));
        i = i + 1;
    }
    true
}

/// No character of `s` is an ASCII upper-case letter.
pub open spec fn has_no_ascii_uppercase(s: Seq<char>) -> bool {
    forall|i: int| 0 <= i < s.len() ==> !('A' <= #[trigger] s[i] && s[i] <= 'Z')
}

/// Tests that `s` holds no ASCII upper-case letter.
pub fn is_lowercase(s: &str) -> (r: bool)
    ensures
        r == has_no_ascii_uppercase(s@),
{
    let n = s.unicode_len();
    let mut i: usize = 0;
    while i < n
        invariant
            i <= n,
            n == s@.len(),
            forall|j: int| 0 <= j < i ==> !('A' <= #[trigger] s@[j] && s@[j] <= 'Z'),
        decreases n - i,
    {
        let c = s.get_char(i);
        if 'A' <= c && c <= 'Z' {
            return false;
        }
        i = i + 1;
    }
    true
}

/// Length rule of a text field: the number of characters lies in
/// `min..=max`.
pub open spec fn length_within(s: Seq<char>, min: nat, max: nat) -> bool {
    min <= s.len() && s.len() <= max
}

/// Tests that the number of characters of `s` lies in `min..=max`.
pub fn check_length(s: &str, min: usize, max: usize) -> (r: bool)
    ensures
        r == length_within(s@, min as nat, max as nat),
{
    let n = s.unicode_len();
    min <= n && n <= max
}

/// Whether `validator` accepts `s` as an e-mail address (HTML5 syntax, with
/// length limits on both parts and IDN domains).
pub uninterp spec fn email_syntax_ok(s: Seq<char>) -> bool;

/// Calls `validator::ValidateEmail::validate_email` on the string. Its result
/// is named `email_syntax_ok`; the source shows that an empty string or one
/// with no `@` is refused.
#[verifier::external_body]
fn validate_email_syntax(s: &String) -> (r: bool)
    ensures
        r == email_syntax_ok(s@),
        r ==> s@.len() > 0 && s@.contains('@'),
{
    s.validate_email()
}

/// Tests `s` with the e-mail syntax rule of `validator`.
pub fn is_email(s: &String) -> (r: bool)
    ensures
        r == email_syntax_ok(s@),
        r ==> s@.len() > 0 && s@.contains('@'),
{
    validate_email_syntax(s)
}

} // verus!
