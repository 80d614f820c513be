use metw_accounts::dto::request::{
    AccountIdentifier, ClientDerivedPassword, Email, ErrorCode, Field, Signup, Username,
};
use metw_accounts::validation::{check_length, is_email, is_lowercase, matches_username};

#[test]
fn username_regex() {
    let valids = ["pass", "p_a_s.s", "p_as.s123", "te_st"];

    let invalids = [
        "123test",
        "double__underscore",
        "_test",
        "end_",
        "end.",
        ".",
    ];

    for valid in valids {
        assert!(matches_username(valid));
    }

    for invalid in invalids {
        assert!(!matches_username(invalid));
    }
}

#[test]
fn email_validation() {
    let valids = ["test@example.com", "another_email@example.com"];

    let invalids = ["invalid.email", "NOUPPERCASE@example.com"];

    for valid in valids {
        assert!(Email { email: valid.into() }.validate().is_ok())
    }

    for invalid in invalids {
        assert!(Email { email: invalid.into() }.validate().is_err())
    }
}

#[test]
fn username_pattern_agrees_with_regex_crate() {
    let re = regex::Regex::new("^[a-z]([_.]?[a-z0-9])*$").unwrap();
    let samples = [
        "", "a", "z9", "a_b", "a.b", "a._b", "a__b", "ab_", "a1.2_3", "A", "aB", "a-b", "é", "a b",
        "a_1", "_", "9a", "abc.def.ghi", "a..b", "a.", "ab.c_d9",
    ];
    for s in samples {
        assert_eq!(matches_username(s), re.is_match(s), "{s}");
    }
}

#[test]
fn length_counts_characters() {
    assert!(check_length("ab", 2, 20));
    assert!(!check_length("a", 2, 20));
    assert!(check_length("ééééé", 5, 5));
    assert!(!check_length(&"a".repeat(21), 2, 20));
}

#[test]
fn lowercase_rule_only_looks_at_ascii_letters() {
    assert!(is_lowercase("abc@example.com"));
    assert!(is_lowercase("ÄÖ"));
    assert!(!is_lowercase("aBc"));
}

#[test]
fn email_syntax() {
    assert!(is_email(&"a@b.co".to_string()));
    assert!(!is_email(&"no-at-sign".to_string()));
    assert!(!is_email(&"".to_string()));
}

#[test]
fn username_request_reports_both_rules() {
    let e = Username { username: "_".to_string() }.validate().unwrap_err();
    let codes: Vec<(Field, ErrorCode)> = e.errors.iter().map(|f| (f.field, f.code)).collect();
    assert_eq!(codes, vec![(Field::Username, ErrorCode::Length), (Field::Username, ErrorCode::Regex)]);
}

#[test]
fn signup_reports_errors_in_field_order() {
    let signup = Signup {
        username: "ok_name".to_string(),
        email: "Upper@Example.com".to_string(),
        password: ClientDerivedPassword {
            base64_hash: "x".repeat(200),
            pbkdf2_salt: "salt".to_string(),
            pbkdf2_iterations: 600_000,
            pbkdf2_length: 32,
        },
    };
    let r = signup.validate();
    assert!(r.is_err());
    let e = r.unwrap_err();
    assert!(e.errors.iter().any(|f| f.field == Field::Email && f.code == ErrorCode::MustBeLowercase));
    assert!(e.errors.iter().any(|f| f.field == Field::Base64Hash && f.code == ErrorCode::Length));
}

#[test]
fn account_identifier_parses_by_shape() {
    assert!(matches!(AccountIdentifier::parse("user@example.com".to_string()), AccountIdentifier::Email(..)));
    assert!(matches!(AccountIdentifier::parse("user_name".to_string()), AccountIdentifier::Username(..)));
    assert!(matches!(AccountIdentifier::parse("42".to_string()), AccountIdentifier::Id(id) if id.0 == 42));
}

#[test]
fn valid_signup_passes() {
    let signup = Signup {
        username: "new_user".to_string(),
        email: "new@example.com".to_string(),
        password: ClientDerivedPassword {
            base64_hash: "aGFzaA==".to_string(),
            pbkdf2_salt: "salt".to_string(),
            pbkdf2_iterations: 600_000,
            pbkdf2_length: 32,
        },
    };
    assert!(signup.validate().is_ok());
}
