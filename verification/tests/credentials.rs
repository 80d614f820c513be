use metw_accounts::credentials::{extract_bearer_token, parse_basic_credentials, split_once, strip_prefix};
use metw_accounts::ids::ApplicationId;

#[test]
fn bearer_tokens() {
    assert_eq!(extract_bearer_token(Some("Bearer abc.def")), Some("abc.def".to_string()));
    assert_eq!(extract_bearer_token(Some("  Bearer abc  ")), Some("abc".to_string()));
    assert_eq!(extract_bearer_token(Some("Basic abc")), None);
    assert_eq!(extract_bearer_token(Some("bearer abc")), None);
    assert_eq!(extract_bearer_token(None), None);
}

#[test]
fn basic_credentials() {
    // "42:s3cr3t:with:colons"
    let header = "Basic NDI6czNjcjN0OndpdGg6Y29sb25z";
    assert_eq!(parse_basic_credentials(Some(header)), Some((ApplicationId(42), "s3cr3t:with:colons".to_string())));
    // Not base64.
    assert_eq!(parse_basic_credentials(Some("Basic !!!")), None);
    // "abc:secret": the id is not a number.
    assert_eq!(parse_basic_credentials(Some("Basic YWJjOnNlY3JldA==")), None);
    // "42secret": no colon.
    assert_eq!(parse_basic_credentials(Some("Basic NDJzZWNyZXQ=")), None);
    // Invalid UTF-8 bytes: 0xff 0xfe.
    assert_eq!(parse_basic_credentials(Some("Basic //4=")), None);
    assert_eq!(parse_basic_credentials(Some("Bearer NDI6eA==")), None);
    assert_eq!(parse_basic_credentials(None), None);
}

#[test]
fn string_helpers_match_std() {
    for (s, p) in [("Bearer x", "Bearer "), ("Bear", "Bearer "), ("", ""), ("ééx", "éé")] {
        assert_eq!(strip_prefix(s, p), s.strip_prefix(p));
    }
    for s in ["a:b", ":", "ab", "a:b:c", "", "é:ü"] {
        assert_eq!(split_once(s, ':'), s.split_once(':'));
    }
}

#[test]
fn trimming_follows_unicode_white_space() {
    for header in ["\u{3000}Bearer tok\u{85}", "\u{a0}\tBearer tok  \u{2029}", "\u{200b}Bearer tok", "Bearer \u{2003}"] {
        assert_eq!(extract_bearer_token(Some(header)), header.trim().strip_prefix("Bearer ").map(|t| t.to_string()), "{header:?}");
    }
}
