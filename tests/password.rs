use flexauth::error::Error;
use flexauth::password::{hash_with_salt, salt_and_hash_password, verify_password_hash};

#[test]
fn hashed_password_verifies() {
    let c = salt_and_hash_password("pass1234").unwrap();
    assert!(verify_password_hash("pass1234", &c));
    assert!(!verify_password_hash("pass1235", &c));
    assert!(!verify_password_hash("", &c));
}

#[test]
fn credential_is_digest_dot_salt() {
    let c = salt_and_hash_password("pass1234").unwrap();
    let (digest, salt) = c.split_once('.').unwrap();
    assert_eq!(digest.len(), 64);
    assert!(digest.bytes().all(|b| b.is_ascii_digit() || (b'a'..=b'f').contains(&b)));
    assert_eq!(salt.len(), 22);
    assert!(!salt.contains('.'));
}

#[test]
fn salts_are_fresh() {
    let a = salt_and_hash_password("pass1234").unwrap();
    let b = salt_and_hash_password("pass1234").unwrap();
    assert_ne!(a, b);
}

#[test]
fn hash_with_salt_is_a_function_of_password_and_salt() {
    let a = hash_with_salt("pass1234", "c2FsdHNhbHRzYWx0c2FsdA").unwrap();
    let b = hash_with_salt("pass1234", "c2FsdHNhbHRzYWx0c2FsdA").unwrap();
    assert_eq!(a, b);
    assert!(a.ends_with(".c2FsdHNhbHRzYWx0c2FsdA"));
    assert!(verify_password_hash("pass1234", &a));
    let other = hash_with_salt("pass1234", "b3RoZXJzYWx0b3RoZXJzYQ").unwrap();
    assert_ne!(a, other);
}

#[test]
fn rejected_salt_is_an_error() {
    assert!(matches!(hash_with_salt("pass1234", "a"), Err(Error::ServerError { .. })));
    assert!(matches!(hash_with_salt("pass1234", "bad salt!"), Err(Error::ServerError { .. })));
}

#[test]
fn malformed_credentials_do_not_verify() {
    assert!(!verify_password_hash("pass1234", "nodot"));
    assert!(!verify_password_hash("pass1234", "abc.a"));
    assert!(!verify_password_hash("pass1234", ""));
}

#[test]
fn verification_splits_at_the_last_dot() {
    let a = hash_with_salt("pass1234", "c2FsdHNhbHRzYWx0c2FsdA").unwrap();
    let shifted = format!("x.{}", a);
    assert!(!verify_password_hash("pass1234", &shifted));
}
