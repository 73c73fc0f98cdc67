use bcrypt::BcryptError;
use rust_user::hasher::{
    accepted, hash, hashed_or_failure, verify, HashFailure, HASH_OPENING,
};

const KNOWN_HASH: &str = "$2b$04$EGdrhbKUv8Oc9vGiXX0HQOxSg445d458Muh7DAHskb6QbtCvdxcie";

#[test]
fn a_hash_is_accepted_for_its_password() {
    let hashed = hash("hunter2").unwrap();
    assert_ne!(hashed, "hunter2");
    assert!(hashed.starts_with("$2b$12$"));
    assert_eq!(HASH_OPENING, "$2b$12$");
    assert_eq!(hashed.chars().count(), 60);
    assert!(verify("hunter2", &hashed));
}

#[test]
fn a_hash_is_not_the_password_and_denies_another() {
    let hashed = hash("hunter2").unwrap();
    assert!(!hashed.contains("hunter2"));
    assert!(!verify("hunter3", &hashed));
}

#[test]
fn verify_accepts_the_right_password() {
    assert!(verify("correctbatteryhorsestapler", KNOWN_HASH));
}

#[test]
fn verify_denies_a_wrong_password() {
    assert!(!verify("wrong", KNOWN_HASH));
    assert!(!verify("", KNOWN_HASH));
}

#[test]
fn verify_denies_on_a_malformed_hash() {
    assert!(!verify("correctbatteryhorsestapler", "not a hash"));
    assert!(!verify("correctbatteryhorsestapler", ""));
    assert!(!verify("correctbatteryhorsestapler", "$2b$04$tooshort"));
    assert!(!verify("correctbatteryhorsestapler", "correctbatteryhorsestapler"));
}

#[test]
fn passwords_that_share_72_bytes_share_their_hashes() {
    let long_a = format!("{}{}", "x".repeat(72), "a");
    let long_b = format!("{}{}", "x".repeat(72), "b");
    let hash = "$2a$05$......................YgIDy4hFBdVlc/6LHnD9mX488r9cLd2";
    assert!(verify(&"x".repeat(100), hash));
    assert!(verify(&long_a, hash));
    assert!(verify(&long_b, hash));
}

#[test]
fn a_backend_hash_is_handed_on() {
    assert_eq!(hashed_or_failure(Ok("abc".to_string())), Ok("abc".to_string()));
}

#[test]
fn a_backend_failure_is_a_hash_failure() {
    assert_eq!(hashed_or_failure(Err(BcryptError::CostNotAllowed(3))), Err(HashFailure));
}

#[test]
fn only_a_plain_yes_accepts() {
    assert!(accepted(Ok(true)));
    assert!(!accepted(Ok(false)));
    assert!(!accepted(Err(BcryptError::InvalidHash("x".to_string()))));
}
