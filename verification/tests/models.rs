use auth_service::domain::error::AuthAPIError;
use auth_service::domain::models::{
    code_of_digits, digit_text, generate_code, is_valid_code, validate_password, Email,
    LoginAttemptId, Password, TwoFACode, User,
};

#[test]
fn email_empty_string_is_rejected() {
    let email = "";
    assert!(Email::parse(email).is_err());
}

#[test]
fn email_missing_at_symbol_is_rejected() {
    let email = "ursuladomain.com";
    assert!(Email::parse(email).is_err());
}

#[test]
fn email_missing_subject_is_rejected() {
    let email = "@domain.com";
    assert!(Email::parse(email).is_err());
}

#[test]
fn email_rejection_is_invalid_email() {
    assert_eq!(Email::parse("ursuladomain.com").unwrap_err(), AuthAPIError::InvalidEmail);
    assert_eq!(Email::parse("a@b@").unwrap_err(), AuthAPIError::InvalidEmail);
    assert_eq!(Email::parse("user@").unwrap_err(), AuthAPIError::InvalidEmail);
    assert_eq!(Email::parse("us er@example.com").unwrap_err(), AuthAPIError::InvalidEmail);
}

#[test]
fn valid_emails_are_parsed_successfully() {
    let samples = [
        "user@example.com",
        "first.last@example.org",
        "weirder-email@here.and.there.com",
        "email@[127.0.0.1]",
        "a@b.c",
    ];
    for sample in samples {
        let email = Email::parse(sample).unwrap();
        assert_eq!(email.as_ref(), sample);
    }
}

#[test]
fn email_local_part_has_a_limit() {
    let local = "a".repeat(64);
    assert!(Email::parse(&format!("{}@example.com", local)).is_ok());
    let local = "a".repeat(65);
    assert!(Email::parse(&format!("{}@example.com", local)).is_err());
}

#[test]
fn email_from_verdict_follows_the_verdict() {
    assert_eq!(Email::from_verdict("anything", false).unwrap_err(), AuthAPIError::InvalidEmail);
    let email = Email::from_verdict("user@example.com", true).unwrap();
    assert_eq!(email.as_ref(), "user@example.com");
}

#[test]
fn emails_compare_by_text() {
    let a = Email::parse("user@example.com").unwrap();
    let b = Email::parse("user@example.com").unwrap();
    let c = Email::parse("user2@example.com").unwrap();
    assert_eq!(a, b);
    assert_ne!(a, c);
    assert_eq!(a.clone(), a);
}

#[test]
fn password_empty_string_is_rejected() {
    let password = "";
    assert!(Password::parse(password).is_err());
}

#[test]
fn string_less_than_8_characters_is_rejected() {
    let password = "1234567";
    assert!(Password::parse(password).is_err());
}

#[test]
fn password_rejection_is_invalid_password() {
    assert_eq!(Password::parse("1234567").unwrap_err(), AuthAPIError::InvalidPassword);
}

#[test]
fn valid_passwords_are_parsed_successfully() {
    let samples = ["12345678", "password123", "a much longer pass phrase, with spaces"];
    for sample in samples {
        let password = Password::parse(sample).unwrap();
        assert_eq!(password.as_ref(), sample);
    }
}

#[test]
fn password_length_counts_characters() {
    assert!(validate_password("12345678"));
    assert!(!validate_password("1234567"));
    assert!(validate_password("pässwörd"));
    assert!(!validate_password("äöüäöüä"));
    assert!(!validate_password(""));
}

#[test]
fn test_valid_code() {
    assert_eq!(is_valid_code("123456"), true);
    assert_eq!(is_valid_code("987654"), true);
    assert_eq!(is_valid_code("000000"), true);
}

#[test]
fn test_invalid_code_too_short() {
    assert_eq!(is_valid_code("12345"), false);
    assert_eq!(is_valid_code("1234"), false);
}

#[test]
fn test_invalid_code_too_long() {
    assert_eq!(is_valid_code("1234567"), false);
    assert_eq!(is_valid_code("12345678"), false);
}

#[test]
fn test_invalid_code_non_digit() {
    assert_eq!(is_valid_code("123a56"), false);
    assert_eq!(is_valid_code("12345-6"), false);
    assert_eq!(is_valid_code("12345.6"), false);
}

#[test]
fn test_invalid_code_other_digits() {
    assert_eq!(is_valid_code(""), false);
    assert_eq!(is_valid_code("12345６"), false);
    assert_eq!(is_valid_code("١٢٣٤٥٦"), false);
    assert_eq!(is_valid_code("12 456"), false);
}

#[test]
fn test_generate_code() {
    let code = generate_code();
    assert_eq!(code.len(), 6);
    for c in code.chars() {
        assert!(c.is_digit(10));
    }
}

#[test]
fn test_generate_multiple_codes() {
    let mut codes = Vec::new();
    for _ in 0..10 {
        codes.push(generate_code());
    }

    // Check if the codes are unique (probabilistic check)
    let mut seen = std::collections::HashSet::new();
    for code in &codes {
        assert!(seen.insert(code));
        assert!(is_valid_code(code))
    }
}

#[test]
fn hundred_generated_codes_are_valid_and_vary() {
    let mut seen = std::collections::HashSet::new();
    for _ in 0..100 {
        let code = TwoFACode::default();
        assert!(is_valid_code(code.as_ref()));
        seen.insert(code.as_ref().to_owned());
    }
    assert!(seen.len() > 1);
}

#[test]
fn generated_codes_use_every_digit() {
    let mut seen = std::collections::HashSet::new();
    for _ in 0..400 {
        for c in generate_code().chars() {
            seen.insert(c);
        }
    }
    assert_eq!(seen.len(), 10);
}

#[test]
fn digit_text_writes_each_digit() {
    let expected = ["0", "1", "2", "3", "4", "5", "6", "7", "8", "9"];
    for digit in 0..10u32 {
        assert_eq!(digit_text(digit), expected[digit as usize]);
    }
}

#[test]
fn code_of_digits_writes_the_digits_in_their_order() {
    assert_eq!(code_of_digits(&vec![0, 1, 2, 3, 4, 5]), "012345");
    assert_eq!(code_of_digits(&vec![9, 8, 7, 6, 5, 4]), "987654");
    assert_eq!(code_of_digits(&vec![0, 0, 0, 0, 0, 0]), "000000");
    assert_eq!(code_of_digits(&vec![9, 9, 9, 9, 9, 9]), "999999");
    assert_eq!(code_of_digits(&vec![1, 0, 0, 0, 0, 0]), "100000");
    assert_eq!(code_of_digits(&vec![0, 0, 0, 0, 0, 1]), "000001");
    assert_ne!(code_of_digits(&vec![1, 2, 3, 4, 5, 6]), code_of_digits(&vec![6, 5, 4, 3, 2, 1]));
    assert_eq!(code_of_digits(&vec![]), "");
    assert_eq!(code_of_digits(&vec![7]), "7");
    assert!(is_valid_code(&code_of_digits(&vec![3, 1, 4, 1, 5, 9])));
}

#[test]
fn two_fa_code_parse_keeps_the_code() {
    let code = TwoFACode::parse("012345".to_owned()).unwrap();
    assert_eq!(code.as_ref(), "012345");
    assert_eq!(code, TwoFACode::parse("012345".to_owned()).unwrap());
    assert_ne!(code, TwoFACode::parse("012346".to_owned()).unwrap());
}

#[test]
fn two_fa_code_parse_rejects_with_message() {
    assert_eq!(TwoFACode::parse("1234".to_owned()).unwrap_err(), "Invalid 2FA code");
    assert_eq!(TwoFACode::parse("12345a".to_owned()).unwrap_err(), "Invalid 2FA code");
    assert_eq!(TwoFACode::parse("1234567".to_owned()).unwrap_err(), "Invalid 2FA code");
}

#[test]
fn login_attempt_id_parse_keeps_canonical_form() {
    let id = LoginAttemptId::parse("123e4567-e89b-12d3-a456-426614174000".to_owned()).unwrap();
    assert_eq!(id.as_ref(), "123e4567-e89b-12d3-a456-426614174000");
}

#[test]
fn login_attempt_id_parse_normalises_other_forms() {
    let expected = "123e4567-e89b-12d3-a456-426614174000";
    let upper = LoginAttemptId::parse("123E4567-E89B-12D3-A456-426614174000".to_owned()).unwrap();
    assert_eq!(upper.as_ref(), expected);
    let simple = LoginAttemptId::parse("123e4567e89b12d3a456426614174000".to_owned()).unwrap();
    assert_eq!(simple.as_ref(), expected);
    let braced = LoginAttemptId::parse("{123e4567-e89b-12d3-a456-426614174000}".to_owned()).unwrap();
    assert_eq!(braced.as_ref(), expected);
    let urn = LoginAttemptId::parse("urn:uuid:123e4567-e89b-12d3-a456-426614174000".to_owned())
        .unwrap();
    assert_eq!(urn.as_ref(), expected);
    assert_eq!(upper, simple);
}

#[test]
fn login_attempt_id_parse_rejects_with_a_reason() {
    for bad in ["", "login-attempt-id", "123e4567-e89b-12d3-a456-42661417400", "attempt-123-123"] {
        let reason = LoginAttemptId::parse(bad.to_owned()).unwrap_err();
        assert!(!reason.is_empty());
        assert_ne!(reason, bad);
    }
}

#[test]
fn login_attempt_id_from_parsed_hands_both_outcomes_on() {
    let id = LoginAttemptId::from_parsed(Ok("123e4567-e89b-12d3-a456-426614174000".to_owned()))
        .unwrap();
    assert_eq!(id.as_ref(), "123e4567-e89b-12d3-a456-426614174000");
    let reason = LoginAttemptId::from_parsed(Err("no UUID".to_owned())).unwrap_err();
    assert_eq!(reason, "no UUID");
}

#[test]
fn generated_login_attempt_ids_are_canonical_and_differ() {
    let a = LoginAttemptId::default();
    let b = LoginAttemptId::default();
    assert_ne!(a, b);
    assert_eq!(a.as_ref().len(), 36);
    let again = LoginAttemptId::parse(a.as_ref().to_owned()).unwrap();
    assert_eq!(again, a);
    // Version 4, RFC variant.
    assert_eq!(a.as_ref().chars().nth(14), Some('4'));
    assert!(matches!(a.as_ref().chars().nth(19), Some('8') | Some('9') | Some('a') | Some('b')));
}

#[test]
fn user_new_keeps_its_parts() {
    let email = Email::parse("user@example.com").unwrap();
    let password = Password::parse("password123").unwrap();
    let user = User::new(email.clone(), password.clone(), true);
    assert_eq!(user.email, email);
    assert_eq!(user.password, password);
    assert!(user.requires_2fa);
    assert_eq!(user.clone(), user);
    let other = User::new(email, password, false);
    assert_ne!(other, user);
}
