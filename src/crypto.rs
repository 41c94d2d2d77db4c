use vstd::prelude::*;
use vstd::slice::slice_subrange;
use vstd::string::StringSliceAdditionalSpecFns;
use vstd::utf8::{decode_utf8, encode_utf8, is_ascii_chars, is_ascii_chars_encode_utf8, valid_utf8};
use aes_gcm::aead::{Aead, AeadCore, KeyInit, OsRng};
use aes_gcm::{Aes256Gcm, Key, Nonce};
use crate::error::Error;
use crate::hextext::{hex_decoded, hex_lower, is_hex_text, lemma_hex_round_trip, lemma_lower_digit_shape};

verus! {

broadcast use vstd::utf8::group_utf8_lib, vstd::string::group_string_axioms;

/// Bytes of the AES-256 key inside a composite key string.
pub const KEY_LEN: usize = 32;

/// Bytes of the GCM nonce inside a composite key string.
pub const IV_LEN: usize = 12;

/// Largest plaintext AES-GCM seals, in bytes (2^36).
pub const GCM_MAX_PLAINTEXT: u64 = 68719476736;

/// What AES-256-GCM makes of `plaintext` under `key` and `nonce`, tag included.
pub uninterp spec fn aes_gcm_sealed(key: Seq<u8>, nonce: Seq<u8>, plaintext: Seq<u8>) -> Seq<u8>;

/// What AES-256-GCM recovers from `ciphertext` under `key` and `nonce`; `None` when the tag fails.
pub uninterp spec fn aes_gcm_opened(key: Seq<u8>, nonce: Seq<u8>, ciphertext: Seq<u8>) -> Option<
    Seq<u8>,
>;

/// No `.` byte in `b[lo..hi]`.
pub open spec fn no_dot(b: Seq<u8>, lo: int, hi: int) -> bool {
    forall|i: int| lo <= i < hi ==> b[i] != 46u8
}

/// Key and nonce of a composite key string `<key>.<nonce>`: the first two `.`-separated
/// segments, of 32 and 12 bytes; `None` for anything else.
pub open spec fn key_parts(b: Seq<u8>) -> Option<(Seq<u8>, Seq<u8>)> {
    if b.len() >= 45 && b[32] == 46u8 && no_dot(b, 0, 32) && no_dot(b, 33, 45) && (b.len() == 45
        || b[45] == 46u8) {
        Some((b.subrange(0, 32), b.subrange(33, 45)))
    } else {
        None
    }
}

/// Hex ciphertext of `data` under a composite key string; `None` when the key string is malformed.
pub open spec fn sealed_text(data: Seq<char>, key_iv: Seq<u8>) -> Option<Seq<char>> {
    match key_parts(key_iv) {
        Some((k, n)) => Some(hex_lower(aes_gcm_sealed(k, n, encode_utf8(data)))),
        None => None,
    }
}

/// Plaintext behind hex ciphertext `text` under a composite key string; `None` when the key
/// string is malformed, the text is not hex, the tag fails or the plaintext is not UTF-8.
pub open spec fn opened_text(text: Seq<char>, key_iv: Seq<u8>) -> Option<Seq<char>> {
    match key_parts(key_iv) {
        Some((k, n)) => if is_hex_text(text) {
            match aes_gcm_opened(k, n, hex_decoded(text)) {
                Some(p) => if valid_utf8(p) {
                    Some(decode_utf8(p))
                } else {
                    None
                },
                None => None,
            }
        } else {
            None
        },
        None => None,
    }
}

/// A composite key string as the generator writes it: 32 lowercase hex digits, `.`, 12 more.
pub open spec fn is_key_string(s: Seq<char>) -> bool {
    &&& s.len() == 45
    &&& s[32] == '.'
    &&& forall|i: int|
        0 <= i < 45 && i != 32 ==> (48 <= (#[trigger] s[i]) as u32 <= 57 || 97 <= s[i] as u32
            <= 102)
}

/// Relies on aes_gcm's `Aes256Gcm::encrypt`: it seals any plaintext up to 2^36 bytes into the
/// ciphertext followed by a 16-byte tag, the same input always giving the same output, and no two
/// plaintexts sealing alike (decryption inverts it).
#[verifier::external_body]
fn gcm_seal(key: &[u8], nonce: &[u8], data: &[u8]) -> (r: Option<Vec<u8>>)
    requires
        key@.len() == KEY_LEN,
        nonce@.len() == IV_LEN,
    ensures
        data@.len() <= GCM_MAX_PLAINTEXT ==> r is Some,
        r matches Some(c) ==> c@ == aes_gcm_sealed(key@, nonce@, data@),
        r matches Some(c) ==> c@.len() == data@.len() + 16,
        forall|x: Seq<u8>|
            r is Some && #[trigger] aes_gcm_sealed(key@, nonce@, x) == r->0@ ==> x == data@,
{
    let cipher = Aes256Gcm::new(Key::<Aes256Gcm>::from_slice(key));
    cipher.encrypt(Nonce::from_slice(nonce), data).ok()
}

/// Relies on aes_gcm's `Aes256Gcm::decrypt`: it returns the plaintext when the tag verifies,
/// so what `encrypt` sealed (up to 2^36 bytes) comes back unchanged, and what opens is exactly
/// what seals back to the ciphertext.
#[verifier::external_body]
fn gcm_open(key: &[u8], nonce: &[u8], ciphertext: &[u8]) -> (r: Option<Vec<u8>>)
    requires
        key@.len() == KEY_LEN,
        nonce@.len() == IV_LEN,
    ensures
        match aes_gcm_opened(key@, nonce@, ciphertext@) {
            Some(p) => r is Some && r->0@ == p,
            None => r is None,
        },
        forall|x: Seq<u8>|
            x.len() <= GCM_MAX_PLAINTEXT && #[trigger] aes_gcm_sealed(key@, nonce@, x) == ciphertext@
                ==> r is Some && r->0@ == x,
        r matches Some(p) ==> aes_gcm_sealed(key@, nonce@, p@) == ciphertext@,
{
    let cipher = Aes256Gcm::new(Key::<Aes256Gcm>::from_slice(key));
    cipher.decrypt(Nonce::from_slice(nonce), ciphertext).ok()
}

/// Relies on `hex::encode`: two lowercase digits per byte, high nibble first.
#[verifier::external_body]
fn hex_encode(b: &[u8]) -> (r: String)
    ensures
        r@ == hex_lower(b@),
{
    hex::encode(b)
}

/// Relies on `hex::decode`: it accepts exactly an even number of hex digits of either case,
/// and gives one byte per pair.
#[verifier::external_body]
fn hex_decode(s: &str) -> (r: Option<Vec<u8>>)
    ensures
        is_hex_text(s@) ==> r is Some && r->0@ == hex_decoded(s@),
        !is_hex_text(s@) ==> r is None,
{
    hex::decode(s).ok()
}

/// Relies on `String::from_utf8`: it succeeds exactly on valid UTF-8 and yields the characters
/// the bytes encode.
#[verifier::external_body]
fn utf8_string(v: Vec<u8>) -> (r: Option<String>)
    ensures
        valid_utf8(v@) ==> r is Some && r->0@ == decode_utf8(v@),
        !valid_utf8(v@) ==> r is None,
{
    String::from_utf8(v).ok()
}

/// Relies on aes_gcm's `Aes256Gcm::generate_key` over the OS generator: 32 random bytes.
#[verifier::external_body]
fn random_key_bytes() -> (r: Vec<u8>)
    ensures
        r@.len() == KEY_LEN,
{
    Aes256Gcm::generate_key(OsRng).to_vec()
}

/// Relies on aes_gcm's `Aes256Gcm::generate_nonce` over the OS generator: 12 random bytes.
#[verifier::external_body]
fn random_nonce_bytes() -> (r: Vec<u8>)
    ensures
        r@.len() == IV_LEN,
{
    Aes256Gcm::generate_nonce(&mut OsRng).to_vec()
}

/// Splits a composite key string into its key and nonce bytes.
pub fn split_key_iv(b: &[u8]) -> (r: Option<(&[u8], &[u8])>)
    ensures
        match key_parts(b@) {
            Some((k, n)) => r matches Some((rk, rn)) && rk@ == k && rn@ == n,
            None => r is None,
        },
{
    if b.len() < 45 || b[32] != 46u8 || (b.len() > 45 && b[45] != 46u8) {
        return None;
    }
    let mut i: usize = 0;
    while i < 45
        invariant
            b@.len() >= 45,
            0 <= i <= 45,
            forall|j: int| 0 <= j < i && j != 32 ==> b@[j] != 46u8,
        decreases 45 - i,
    {
        if i != 32 && b[i] == 46u8 {
            return None;
        }
        i = i + 1;
    }
    Some((slice_subrange(b, 0, 32), slice_subrange(b, 33, 45)))
}

pub(crate) proof fn lemma_ascii_char(c: char)
    requires
        c as u32 <= 127,
    ensures
        '\0' <= c <= '\u{7f}',
{
    assert('\u{7f}' as u32 == 127);
    assert(c as u32 <= '\u{7f}' as u32);
}

/// The bytes of a well-formed composite key string split into key and nonce.
pub proof fn lemma_key_string_parts(s: Seq<char>)
    requires
        is_key_string(s),
    ensures
        key_parts(encode_utf8(s)) is Some,
{
    assert forall|i: int| 0 <= i < s.len() implies '\0' <= #[trigger] s[i] <= '\u{7f}' by {
        let c = s[i];
        if i != 32 {
            assert(c as u32 <= 102);
        } else {
            assert(c == '.');
            assert(c as u32 == 46);
        }
        lemma_ascii_char(c);
    }
    assert(is_ascii_chars(s));
    is_ascii_chars_encode_utf8(s);
    let b = encode_utf8(s);
    assert(b[32] == 46u8);
    assert(no_dot(b, 0, 32));
    assert(no_dot(b, 33, 45));
}

/// A fresh composite key string: a random AES-256 key and a random GCM nonce, each drawn from
/// the OS generator, written as lowercase hex, truncated to 32 and 12 digits, joined by `.`.
pub fn create_kek() -> (r: String)
    ensures
        is_key_string(r@),
        key_parts(encode_utf8(r@)) is Some,
{
    let key = random_key_bytes();
    let iv = random_nonce_bytes();
    let mut r = hex_encode(slice_subrange(key.as_slice(), 0, 16));
    let tail = hex_encode(slice_subrange(iv.as_slice(), 0, 6));
    r.append(".");
    r.append(tail.as_str());
    proof {
        reveal_strlit(".");
        let kh = hex_lower(key@.subrange(0, 16));
        let ih = hex_lower(iv@.subrange(0, 6));
        assert(r@ == kh + seq!['.'] + ih);
        assert forall|i: int| 0 <= i < 45 && i != 32 implies (48 <= (#[trigger] r@[i]) as u32 <= 57
            || 97 <= r@[i] as u32 <= 102) by {
            if i < 32 {
                let x = key@[i / 2] as int;
                lemma_lower_digit_shape(x / 16);
                lemma_lower_digit_shape(x % 16);
            } else {
                let x = iv@[(i - 33) / 2] as int;
                lemma_lower_digit_shape(x / 16);
                lemma_lower_digit_shape(x % 16);
            }
        }
        lemma_key_string_parts(r@);
    }
    r
}

/// A fresh service-wide key encryption key.
pub fn generate_key_encryption_key() -> (r: String)
    ensures
        is_key_string(r@),
        key_parts(encode_utf8(r@)) is Some,
{
    create_kek()
}

/// Symmetric encryption of text fields under a composite key string.
pub struct Encryption;

impl Encryption {
    /// Encrypts `data` under `key_iv` and returns the ciphertext, tag included, as lowercase hex.
    /// The same text under the same key always gives the same ciphertext.
    pub fn encrypt_data(data: &str, key_iv: &str) -> (r: Result<String, Error>)
        ensures
            r matches Ok(c) ==> sealed_text(data@, key_iv.spec_bytes()) == Some(c@),
            key_parts(key_iv.spec_bytes()) is None ==> r is Err,
            r is Err ==> r matches Err(Error::CryptoFailure { .. }),
            key_parts(key_iv.spec_bytes()) is Some && encode_utf8(data@).len()
                <= GCM_MAX_PLAINTEXT ==> r is Ok,
            forall|x: Seq<char>|
                r is Ok && #[trigger] sealed_text(x, key_iv.spec_bytes()) == Some(r->Ok_0@) ==> x
                    == data@,
            r matches Ok(c) ==> c@.len() == 2 * (encode_utf8(data@).len() + 16),
    {
        match split_key_iv(key_iv.as_bytes()) {
            None => Err(Error::CryptoFailure { message: "malformed key".to_string() }),
            Some((k, n)) => match gcm_seal(k, n, data.as_bytes()) {
                Some(c) => {
                    let h = hex_encode(c.as_slice());
                    proof {
                        assert forall|x: Seq<char>| #[trigger]
                            sealed_text(x, key_iv.spec_bytes()) == Some(h@) implies x == data@ by {
                            let sx = aes_gcm_sealed(k@, n@, encode_utf8(x));
                            lemma_hex_round_trip(sx);
                            lemma_hex_round_trip(c@);
                            assert(encode_utf8(x) == encode_utf8(data@));
                            assert(decode_utf8(encode_utf8(x)) == x);
                        }
                    }
                    Ok(h)
                },
                None => Err(Error::CryptoFailure { message: "plaintext too long".to_string() }),
            },
        }
    }

    /// Decrypts hex ciphertext under `key_iv`. What `encrypt_data` produced under the same key
    /// comes back as the text it was made from.
    pub fn decrypt_data(cipher_text: &str, key_iv: &str) -> (r: Result<String, Error>)
        ensures
            match opened_text(cipher_text@, key_iv.spec_bytes()) {
                Some(p) => r is Ok && r->Ok_0@ == p,
                None => r matches Err(Error::CryptoFailure { .. }),
            },
            forall|x: Seq<char>|
                encode_utf8(x).len() <= GCM_MAX_PLAINTEXT && #[trigger] sealed_text(
                    x,
                    key_iv.spec_bytes(),
                ) == Some(cipher_text@) ==> r is Ok && r->Ok_0@ == x,
            r matches Ok(s) ==> key_parts(key_iv.spec_bytes()) matches Some((k, n)) && is_hex_text(
                cipher_text@,
            ) && aes_gcm_sealed(k, n, encode_utf8(s@)) == hex_decoded(cipher_text@),
    {
        let ghost kb = key_iv.spec_bytes();
        let parts = split_key_iv(key_iv.as_bytes());
        match parts {
            None => Err(Error::CryptoFailure { message: "malformed key".to_string() }),
            Some((k, n)) => {
                let bytes = hex_decode(cipher_text);
                match bytes {
                    None => Err(Error::CryptoFailure { message: "not hex".to_string() }),
                    Some(c) => {
                        let opened = gcm_open(k, n, c.as_slice());
                        proof {
                            assert forall|x: Seq<char>|
                                encode_utf8(x).len() <= GCM_MAX_PLAINTEXT && #[trigger] sealed_text(
                                    x,
                                    kb,
                                ) == Some(cipher_text@) implies opened is Some && opened->0@
                                    == encode_utf8(x) by {
                                lemma_hex_round_trip(aes_gcm_sealed(k@, n@, encode_utf8(x)));
                            }
                        }
                        match opened {
                            None => Err(Error::CryptoFailure { message: "tag mismatch".to_string() }),
                            Some(p) => match utf8_string(p) {
                                None => Err(Error::CryptoFailure { message: "not utf-8".to_string() }),
                                Some(s) => Ok(s),
                            },
                        }
                    },
                }
            },
        }
    }
}

} // verus!
