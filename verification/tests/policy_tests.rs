use auth_core::PasswordViolation;
use auth_core::check_password;
use auth_core::has_lowercase;
use auth_core::has_number;
use auth_core::has_uppercase;
use auth_core::hash_password;
use auth_core::is_long;
use auth_core::is_secure;
use auth_core::rand_string;
use auth_core::verify_password;
use auth_core::Error;

#[test]
fn policy_accepts_conforming_password() {
    assert!(is_secure("Abc12345").is_ok());
    assert!(check_password("Abc12345").is_empty());
}

#[test]
fn policy_requires_length() {
    assert_eq!(is_long("Abc1234"), Err(PasswordViolation::TooShort));
    assert!(is_long("Abc12345").is_ok());
}

#[test]
fn policy_requires_uppercase() {
    assert_eq!(has_uppercase("abc12345"), Err(PasswordViolation::NoUppercase));
    assert!(has_uppercase("Abc12345").is_ok());
}

#[test]
fn policy_requires_lowercase() {
    assert_eq!(has_lowercase("ABC12345"), Err(PasswordViolation::NoLowercase));
    assert!(has_lowercase("Abc12345").is_ok());
}

#[test]
fn policy_requires_digit() {
    assert_eq!(has_number("Abcdefgh"), Err(PasswordViolation::NoDigit));
    assert!(has_number("Abc12345").is_ok());
}

#[test]
fn policy_reports_all_violations_in_rule_order() {
    assert_eq!(
        check_password(""),
        vec![
            PasswordViolation::TooShort,
            PasswordViolation::NoUppercase,
            PasswordViolation::NoLowercase,
            PasswordViolation::NoDigit,
        ]
    );
    assert_eq!(
        check_password("short1"),
        vec![PasswordViolation::TooShort, PasswordViolation::NoUppercase]
    );
    assert_eq!(
        check_password("abcdefgh"),
        vec![PasswordViolation::NoUppercase, PasswordViolation::NoDigit]
    );
    assert_eq!(
        check_password("ABCDEFG1"),
        vec![PasswordViolation::NoLowercase]
    );
}

#[test]
fn policy_counts_bytes_not_characters() {
    // Seven characters, but eleven bytes once encoded: the length rule
    // counts bytes, so this passes, while seven one-byte characters fail.
    assert!(is_long("ÀàÉè1aB").is_ok());
    assert!(is_secure("ÀàÉè1aB").is_ok());
    assert_eq!(is_long("Abc1234"), Err(PasswordViolation::TooShort));
}

#[test]
fn hash_then_verify_round_trips() {
    let digest = hash_password("Abc12345").unwrap();
    assert!(verify_password(&digest, "Abc12345"));
}

#[test]
fn verify_rejects_wrong_password() {
    let digest = hash_password("Abc12345").unwrap();
    assert!(!verify_password(&digest, "Abc12346"));
    assert!(!verify_password(&digest, ""));
}

#[test]
fn verify_rejects_malformed_digest() {
    assert!(!verify_password("not a digest", "Abc12345"));
    assert!(!verify_password("", "Abc12345"));
}

#[test]
fn hashing_salts_digests() {
    // Two digests of the same password differ because each call draws a
    // fresh salt; both still verify.
    let d1 = hash_password("Abc12345").unwrap();
    let d2 = hash_password("Abc12345").unwrap();
    assert_ne!(d1, d2);
    assert!(verify_password(&d1, "Abc12345"));
    assert!(verify_password(&d2, "Abc12345"));
}

#[test]
fn rand_string_has_requested_length_in_ascii() {
    let s = rand_string(15);
    assert_eq!(s.chars().count(), 15);
    assert!(s.chars().all(|c| c.is_ascii()));
    assert_eq!(rand_string(0).len(), 0);
}

#[test]
fn random_strings_differ() {
    assert_ne!(rand_string(15), rand_string(15));
}

#[test]
fn error_messages_name_the_failure() {
    assert_eq!(
        Error::InvalidEmailAddressError.message(),
        "That is not a valid email address."
    );
    assert_eq!(
        Error::EmailAlreadyExists.message(),
        "That email address already exists. Try logging in."
    );
    assert_eq!(Error::UnauthorizedError.message(), "Incorrect email or password.");
    assert_eq!(
        Error::EmailDoesNotExist(String::from("a@x.com")).message(),
        "The email \"a@x.com\" is not registered. Try signing up first."
    );
}

#[test]
fn policy_violation_message_concatenates_reasons() {
    let e = Error::PasswordPolicyViolation(vec![
        PasswordViolation::TooShort,
        PasswordViolation::NoDigit,
    ]);
    assert_eq!(
        e.message(),
        "The password must be at least 8 characters long.\nThe password has to contain at least one digit.\n"
    );
    assert_eq!(Error::PasswordPolicyViolation(vec![]).message(), "");
}
