use flexauth::crypto::{create_kek, generate_key_encryption_key, split_key_iv, Encryption};
use flexauth::dek::Dek;
use flexauth::error::Error;

const KEY: &str = "0123456789abcdef0123456789abcdef.0123456789ab";

fn is_key_shape(k: &str) -> bool {
    let b = k.as_bytes();
    b.len() == 45
        && b[32] == b'.'
        && b.iter().enumerate().all(|(i, c)| i == 32 || c.is_ascii_digit() || (b'a'..=b'f').contains(c))
}

#[test]
fn generated_keys_have_composite_shape() {
    assert!(is_key_shape(&create_kek()));
    assert!(is_key_shape(&generate_key_encryption_key()));
    assert!(is_key_shape(&Dek::generate()));
}

#[test]
fn generated_keys_differ() {
    assert_ne!(Dek::generate(), Dek::generate());
}

#[test]
fn split_key_iv_takes_first_two_segments() {
    let (k, n) = split_key_iv(KEY.as_bytes()).unwrap();
    assert_eq!(k, b"0123456789abcdef0123456789abcdef");
    assert_eq!(n, b"0123456789ab");
    let longer = format!("{}.extra", KEY);
    assert!(split_key_iv(longer.as_bytes()).is_some());
    assert!(split_key_iv(b"0123456789abcdef0123456789abcdef.0123456789a").is_none());
    assert!(split_key_iv(b"0123456789abcdef0123456789abcdef.0123456789abc").is_none());
    assert!(split_key_iv(b"0123456789abcdef.0123456789abcdef.0123456789").is_none());
    assert!(split_key_iv(b"").is_none());
}

#[test]
fn decrypt_inverts_encrypt() {
    for text in ["", "a@b.co", "pass1234", "héllo wörld ✓", "uid-with-dashes"] {
        let c = Encryption::encrypt_data(text, KEY).unwrap();
        assert_eq!(Encryption::decrypt_data(&c, KEY).unwrap(), text);
    }
    let k = create_kek();
    let c = Encryption::encrypt_data("Newpass12", &k).unwrap();
    assert_eq!(Encryption::decrypt_data(&c, &k).unwrap(), "Newpass12");
}

#[test]
fn encryption_is_deterministic_per_key() {
    let a = Encryption::encrypt_data("a@b.co", KEY).unwrap();
    let b = Encryption::encrypt_data("a@b.co", KEY).unwrap();
    assert_eq!(a, b);
    let other = Encryption::encrypt_data("a@b.co", &create_kek()).unwrap();
    assert_ne!(a, other);
}

#[test]
fn ciphertext_is_lowercase_hex_of_text_and_tag() {
    let c = Encryption::encrypt_data("hello", KEY).unwrap();
    assert_eq!(c.len(), 2 * (5 + 16));
    assert!(c.bytes().all(|b| b.is_ascii_digit() || (b'a'..=b'f').contains(&b)));
    assert_ne!(c, "hello");
}

#[test]
fn malformed_key_is_a_crypto_failure() {
    assert!(matches!(Encryption::encrypt_data("x", "short.key"), Err(Error::CryptoFailure { .. })));
    assert!(matches!(Encryption::decrypt_data("00", "short.key"), Err(Error::CryptoFailure { .. })));
}

#[test]
fn tampered_or_foreign_ciphertext_is_a_crypto_failure() {
    let mut c = Encryption::encrypt_data("hello", KEY).unwrap();
    let last = if c.ends_with('0') { '1' } else { '0' };
    c.pop();
    c.push(last);
    assert!(matches!(Encryption::decrypt_data(&c, KEY), Err(Error::CryptoFailure { .. })));
    assert!(matches!(Encryption::decrypt_data("zz", KEY), Err(Error::CryptoFailure { .. })));
    assert!(matches!(Encryption::decrypt_data("abc", KEY), Err(Error::CryptoFailure { .. })));
    let c2 = Encryption::encrypt_data("hello", KEY).unwrap();
    assert!(matches!(Encryption::decrypt_data(&c2, &create_kek()), Err(Error::CryptoFailure { .. })));
}

#[test]
fn uppercase_hex_ciphertext_still_decrypts() {
    let c = Encryption::encrypt_data("hello", KEY).unwrap().to_uppercase();
    assert_eq!(Encryption::decrypt_data(&c, KEY).unwrap(), "hello");
}
