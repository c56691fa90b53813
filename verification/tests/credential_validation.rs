use rest_server::json::auth::{collect_report, LoginCreds, SignUpCreds};

fn login(email: &str, password: &str) -> LoginCreds {
    LoginCreds { email: email.to_string(), password: password.to_string() }
}

fn pairs(r: &garde::Report) -> Vec<(String, String)> {
    r.iter().map(|(path, error)| (path.to_string(), error.message().to_string())).collect()
}

#[test]
fn valid_login_passes() {
    assert!(login("user@example.com", "password1").validate().is_ok());
}

#[test]
fn login_with_missing_at_is_rejected() {
    let r = login("userexample.com", "password1").validate().unwrap_err();
    assert_eq!(
        pairs(&r),
        vec![("email".to_string(), "not a valid email: value is missing `@`".to_string())]
    );
    assert_eq!(r.to_string(), "email: not a valid email: value is missing `@`\n");
}

#[test]
fn login_with_empty_email_is_rejected() {
    let r = login("", "password1").validate().unwrap_err();
    assert_eq!(
        pairs(&r),
        vec![("email".to_string(), "not a valid email: value is empty".to_string())]
    );
}

#[test]
fn short_password_is_rejected() {
    let r = login("user@example.com", "1234567").validate().unwrap_err();
    assert_eq!(
        pairs(&r),
        vec![("password".to_string(), "length is lower than 8".to_string())]
    );
}

#[test]
fn password_length_bounds_are_inclusive() {
    assert!(login("user@example.com", "12345678").validate().is_ok());
    assert!(login("user@example.com", &"x".repeat(64)).validate().is_ok());
    let r = login("user@example.com", &"x".repeat(65)).validate().unwrap_err();
    assert_eq!(
        pairs(&r),
        vec![("password".to_string(), "length is greater than 64".to_string())]
    );
}

#[test]
fn password_length_counts_bytes() {
    // four two-byte characters: 8 bytes, 4 characters
    assert!(login("user@example.com", "éééé").validate().is_ok());
    // three two-byte characters and one ASCII: 7 bytes
    assert!(login("user@example.com", "éééa").validate().is_err());
}

#[test]
fn both_failures_reported_in_field_order() {
    let r = login("nope", "short").validate().unwrap_err();
    assert_eq!(
        pairs(&r),
        vec![
            ("email".to_string(), "not a valid email: value is missing `@`".to_string()),
            ("password".to_string(), "length is lower than 8".to_string()),
        ]
    );
    assert_eq!(
        r.to_string(),
        "email: not a valid email: value is missing `@`\npassword: length is lower than 8\n"
    );
}

#[test]
fn signup_without_password_passes_length_rule() {
    let c = SignUpCreds { name: "Ann".to_string(), email: "ann@example.com".to_string(), password: None };
    assert!(c.validate().is_ok());
}

#[test]
fn signup_checks_given_password() {
    let c = SignUpCreds {
        name: "".to_string(),
        email: "ann@example.com".to_string(),
        password: Some("short".to_string()),
    };
    let r = c.validate().unwrap_err();
    assert_eq!(
        pairs(&r),
        vec![("password".to_string(), "length is lower than 8".to_string())]
    );
}

#[test]
fn signup_name_is_not_checked() {
    let c = SignUpCreds {
        name: "".to_string(),
        email: "ann@[127.0.0.1]".to_string(),
        password: Some("long enough".to_string()),
    };
    assert!(c.validate().is_ok());
}

#[test]
fn signup_with_bad_domain_is_rejected() {
    let c = SignUpCreds {
        name: "Ann".to_string(),
        email: "ann@exam_ple.com".to_string(),
        password: None,
    };
    let r = c.validate().unwrap_err();
    assert_eq!(
        pairs(&r),
        vec![("email".to_string(), "not a valid email: domain contains unexpected characters".to_string())]
    );
}

#[test]
fn collect_report_keeps_failures_in_order() {
    assert!(collect_report(vec![("a", Ok(())), ("b", Ok(()))]).is_ok());
    assert!(collect_report(vec![]).is_ok());
    let r = collect_report(vec![
        ("a", Err("first".to_string())),
        ("b", Ok(())),
        ("", Err("second".to_string())),
    ])
    .unwrap_err();
    assert_eq!(
        pairs(&r),
        vec![("a".to_string(), "first".to_string()), ("".to_string(), "second".to_string())]
    );
    assert_eq!(r.to_string(), "a: first\n: second\n");
}
