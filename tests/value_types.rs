use auth_service::email::{Email, ValidationError};
use auth_service::password::Password;
use auth_service::two_fa::{LoginAttemptId, TwoFACode, TwoFACodeError};

#[test]
fn expect_valid_emails() {
    for valid_email in ["teemo@gmail.com", "mooomin@hotmail.com"] {
        let email = Email::parse(valid_email.to_string());
        assert_eq!(email.is_ok(), true);
        assert_eq!(email.ok().unwrap().as_ref(), valid_email);
    }
}

#[test]
fn should_be_invalid_emails() {
    for invalid in ["teemo", "teemo@gmail@badger.com", "woo@min_at_asdsad", ""] {
        let email = Email::parse(invalid.to_string());
        assert!(matches!(email, Err(ValidationError::InvalidEmail)), "{}", invalid);
    }
}

#[test]
fn emails_compare_by_text() {
    let a = Email::parse("a@x.com".to_string()).ok().unwrap();
    let b = Email::parse("a@x.com".to_string()).ok().unwrap();
    let c = Email::parse("c@x.com".to_string()).ok().unwrap();
    assert!(a == b);
    assert!(a != c);
    assert!(a.duplicate() == a);
}

#[test]
fn should_be_valid() {
    for valid_password in ["I am a long string", "lengthi8"] {
        let password = Password::parse(valid_password.to_string());
        match password {
            Err(_) => panic!("Should be a valid password: {}", valid_password),
            Ok(p) => assert_eq!(p.as_ref(), valid_password),
        }
    }
}

#[test]
fn should_be_invalid() {
    for invalid_password in ["", "short", "1234567"] {
        let password = Password::parse(invalid_password.to_string());
        assert!(matches!(password, Err(ValidationError::PasswordTooShort)));
    }
}

#[test]
fn password_length_counts_bytes() {
    // four two-byte characters make eight bytes
    assert!(Password::parse("éééé".to_string()).is_ok());
    assert!(Password::parse("ééé".to_string()).is_err());
}

#[test]
fn login_attempt_id_rejects_non_uuid() {
    let bad = LoginAttemptId::parse("should_not_work".to_string());
    assert!(matches!(bad, Err(TwoFACodeError::InvalidUuid)));
}

#[test]
fn login_attempt_id_is_canonicalised() {
    let id = LoginAttemptId::parse("67E55044-10B1-426F-9247-BB680E5FE0C8".to_string())
        .ok()
        .unwrap();
    assert_eq!(id.as_ref(), "67e55044-10b1-426f-9247-bb680e5fe0c8");
    let simple = LoginAttemptId::parse("67e5504410b1426f9247bb680e5fe0c8".to_string())
        .ok()
        .unwrap();
    assert_eq!(simple.as_ref(), "67e55044-10b1-426f-9247-bb680e5fe0c8");
}

#[test]
fn default_login_attempt_id_parses_back() {
    let id = LoginAttemptId::default();
    let again = LoginAttemptId::parse(id.as_ref().to_string()).ok().unwrap();
    assert!(again == id);
    assert_eq!(id.as_ref().len(), 36);
}

#[test]
fn two_fa_code_parse() {
    let valid = TwoFACode::parse(912304.to_string()).ok().unwrap();
    assert_eq!(valid.as_ref().parse::<u32>().unwrap(), 912304);
    assert!(matches!(
        TwoFACode::parse("I am not a number".to_string()),
        Err(TwoFACodeError::InvalidUuid)
    ));
}

#[test]
fn two_fa_code_bounds() {
    assert!(TwoFACode::parse("100000".to_string()).is_ok());
    assert!(TwoFACode::parse("999999".to_string()).is_ok());
    assert!(matches!(TwoFACode::parse("99999".to_string()), Err(TwoFACodeError::CodeOutOfRange)));
    assert!(matches!(
        TwoFACode::parse("1000000".to_string()),
        Err(TwoFACodeError::CodeOutOfRange)
    ));
    assert!(matches!(
        TwoFACode::parse("4294967295".to_string()),
        Err(TwoFACodeError::CodeOutOfRange)
    ));
    assert!(matches!(
        TwoFACode::parse("4294967296".to_string()),
        Err(TwoFACodeError::InvalidUuid)
    ));
    assert!(matches!(TwoFACode::parse("".to_string()), Err(TwoFACodeError::InvalidUuid)));
    assert!(matches!(TwoFACode::parse("+".to_string()), Err(TwoFACodeError::InvalidUuid)));
    assert!(matches!(TwoFACode::parse("-123456".to_string()), Err(TwoFACodeError::InvalidUuid)));
}

#[test]
fn two_fa_code_keeps_its_text() {
    let plus = TwoFACode::parse("+123456".to_string()).ok().unwrap();
    assert_eq!(plus.as_ref(), "+123456");
    let zeros = TwoFACode::parse("000123456".to_string()).ok().unwrap();
    assert_eq!(zeros.as_ref(), "000123456");
}

#[test]
fn default_two_fa_code_is_six_digits() {
    for _ in 0..50 {
        let code = TwoFACode::default();
        let text = code.as_ref();
        assert_eq!(text.chars().count(), 6);
        let n: u32 = text.parse().unwrap();
        assert!((100_000..=999_999).contains(&n));
        assert!(TwoFACode::parse(text.to_string()).is_ok());
    }
}
