use flexauth::validation::{is_email_identifier, Validation};

#[test]
fn password_policy_boundaries() {
    assert!(!Validation::password("abcdefgh"));
    assert!(Validation::password("abcdefg1"));
    assert!(Validation::password("pass1234"));
    assert!(Validation::password("Newpass12"));
    assert!(!Validation::password("12345678"));
    assert!(!Validation::password("abc1"));
    assert!(!Validation::password("abcdef1"));
    assert!(!Validation::password(""));
}

#[test]
fn password_policy_counts_bytes_and_unicode_classes() {
    assert!(Validation::password("éééé1"));
    assert!(!Validation::password("ééé1"));
    assert!(Validation::password("ábcdefg١"));
    assert!(!Validation::password("ééé"));
}

#[test]
fn request_email_shape() {
    assert!(Validation::email("a@b.co"));
    assert!(Validation::email("first.last+tag@mail.example.org"));
    assert!(Validation::email("x_y%z-w@sub-domain.io"));
    assert!(!Validation::email("a@b.c"));
    assert!(!Validation::email("a@b.c0"));
    assert!(!Validation::email("a@.co"));
    assert!(!Validation::email("@b.co"));
    assert!(!Validation::email("ab.co"));
    assert!(!Validation::email("a@b@c.co"));
    assert!(!Validation::email("a b@c.co"));
    assert!(!Validation::email(""));
}

#[test]
fn lookup_identifier_shape() {
    assert!(is_email_identifier("a@b.co"));
    assert!(is_email_identifier("first.last+tag@mail.example.org"));
    assert!(is_email_identifier("a@b.c0"));
    assert!(is_email_identifier("a@sub.b-c"));
    assert!(is_email_identifier("a@sub.b-c.d"));
    assert!(!is_email_identifier("a%b@c.co"));
    assert!(!is_email_identifier("a@b."));
    assert!(!is_email_identifier("a@.b"));
    assert!(!is_email_identifier("6f1c2b7e-3d4a-4f8e-9b1a-2c3d4e5f6a7b"));
    assert!(!is_email_identifier(""));
}
