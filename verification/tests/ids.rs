use metw_accounts::decimal::{format_i64, format_u64};
use metw_accounts::ids::{parse_decimal_u64, AccountId, ApplicationId};

#[test]
fn decimal_ids_parse_like_u64_from_str() {
    for s in ["0", "42", "+7", "18446744073709551615", "", "+", "-1", "18446744073709551616", "1a", " 1"] {
        assert_eq!(parse_decimal_u64(s), s.parse::<u64>().ok(), "{s:?}");
    }
    assert_eq!(AccountId::from_str("123"), Some(AccountId(123)));
    assert_eq!(ApplicationId::from_str("x"), None);
}

#[test]
fn decimal_text_matches_to_string() {
    for v in [0u64, 7, 10, 99, 100, 12345, u64::MAX] {
        assert_eq!(format_u64(v), v.to_string());
    }
    for v in [0i64, -1, -10, 1_700_000_000, i64::MIN, i64::MAX] {
        assert_eq!(format_i64(v), v.to_string());
    }
}
