use vstd::prelude::*;
use vstd::string::{StrSliceExecFns, StringSliceAdditionalSpecFns};
use vstd::utf8::encode_utf8;
use aes_gcm::aead::OsRng;
use argon2::password_hash::{PasswordHasher, SaltString};
use argon2::Argon2;
use crate::error::Error;
use crate::hextext::hex_lower;
use crate::validation::rfind_char;

verus! {

broadcast use vstd::string::group_string_axioms;

/// The PHC string that Argon2id with default parameters makes of `password` and a B64 salt;
/// `None` when the salt is not an acceptable B64 salt.
pub uninterp spec fn argon2_phc(password: Seq<char>, salt: Seq<char>) -> Option<Seq<char>>;

/// The SHA-256 digest of a byte sequence.
pub uninterp spec fn sha256_of(data: Seq<u8>) -> Seq<u8>;

/// A character of the standard Base64 alphabet `[A-Za-z0-9+/]`.
pub open spec fn is_b64_char(c: char) -> bool {
    let u = c as u32;
    (65 <= u <= 90) || (97 <= u <= 122) || (48 <= u <= 57) || u == 43 || u == 47
}

/// No `.` anywhere in `s`.
pub open spec fn dot_free(s: Seq<char>) -> bool {
    forall|i: int| 0 <= i < s.len() ==> #[trigger] s[i] != '.'
}

/// The hex digest of the Argon2 PHC string: `sha256(argon2id(password, salt))`.
pub open spec fn password_digest(password: Seq<char>, salt: Seq<char>) -> Option<Seq<char>> {
    match argon2_phc(password, salt) {
        Some(h) => Some(hex_lower(sha256_of(encode_utf8(h)))),
        None => None,
    }
}

/// The stored credential `<sha256_hex>.<salt>` for a password under a salt.
pub open spec fn credential_of(password: Seq<char>, salt: Seq<char>) -> Option<Seq<char>> {
    match password_digest(password, salt) {
        Some(d) => Some(d + seq!['.'] + salt),
        None => None,
    }
}

/// `k` is the position of the last `.` in `s`.
pub open spec fn is_last_dot(s: Seq<char>, k: int) -> bool {
    &&& 0 <= k < s.len()
    &&& s[k] == '.'
    &&& forall|j: int| k < j < s.len() ==> s[j] != '.'
}

/// A password matches a stored credential: split at its last `.`, the part before is the digest
/// that the password gives under the part after, taken as the salt.
pub open spec fn credential_matches(password: Seq<char>, stored: Seq<char>) -> bool {
    exists|k: int|
        #![trigger is_last_dot(stored, k)]
        is_last_dot(stored, k) && password_digest(password, stored.subrange(k + 1, stored.len() as int))
            == Some(stored.subrange(0, k))
}

/// Longest password Argon2 hashes, in bytes.
pub const MAX_PASSWORD_BYTES: u64 = 0xFFFF_FFFF;

/// Relies on password_hash's `SaltString::generate` over the OS generator: 16 random bytes in
/// unpadded standard Base64, 22 characters; argon2 hashes any password up to its length limit
/// under such a salt (it fails only on length limits of password, salt and output).
#[verifier::external_body]
fn random_salt() -> (r: String)
    ensures
        r@.len() == 22,
        forall|i: int| 0 <= i < r@.len() ==> is_b64_char(#[trigger] r@[i]),
        forall|p: Seq<char>|
            encode_utf8(p).len() <= MAX_PASSWORD_BYTES ==> #[trigger] argon2_phc(p, r@) is Some,
{
    SaltString::generate(&mut OsRng).as_str().to_string()
}

/// Relies on argon2's `Argon2::default().hash_password` with the salt read by
/// `SaltString::from_b64`: the PHC string is a function of password and salt.
#[verifier::external_body]
fn argon2_hash(password: &str, salt: &str) -> (r: Option<String>)
    ensures
        match argon2_phc(password@, salt@) {
            Some(h) => r is Some && r->0@ == h,
            None => r is None,
        },
{
    let salt = match SaltString::from_b64(salt) {
        Ok(s) => s,
        Err(_) => return None,
    };
    match Argon2::default().hash_password(password.as_bytes(), &salt) {
        Ok(h) => Some(h.to_string()),
        Err(_) => None,
    }
}

/// Relies on `sha256::digest`: the 32-byte SHA-256 of the text's bytes, as 64 lowercase hex
/// digits.
#[verifier::external_body]
fn sha256_hex(s: &str) -> (r: String)
    ensures
        r@ == hex_lower(sha256_of(s.spec_bytes())),
        r@.len() == 64,
{
    sha256::digest(s)
}

/// Equality of two texts that looks at every character whatever it finds.
fn constant_time_eq(a: &str, b: &str) -> (r: bool)
    ensures
        r == (a@ == b@),
{
    let n = a.unicode_len();
    let m = b.unicode_len();
    let mut differ = n != m;
    let mut i: usize = 0;
    let k = if n < m { n } else { m };
    while i < k
        invariant
            k <= n == a@.len(),
            k <= m == b@.len(),
            i <= k,
            differ == (n != m || exists|j: int| 0 <= j < i && a@[j] != b@[j]),
        decreases k - i,
    {
        let x = a.get_char(i);
        let y = b.get_char(i);
        differ = differ || x != y;
        i = i + 1;
    }
    proof {
        if !differ {
            assert(a@ =~= b@);
        }
    }
    !differ
}

/// The digest half of a credential for a password under a given salt.
fn digest_with_salt(password: &str, salt: &str) -> (r: Option<String>)
    ensures
        match password_digest(password@, salt@) {
            Some(d) => r is Some && r->0@ == d && d.len() == 64,
            None => r is None,
        },
{
    match argon2_hash(password, salt) {
        Some(h) => Some(sha256_hex(h.as_str())),
        None => None,
    }
}

/// The credential `<sha256_hex>.<salt>` for a password under a chosen B64 salt.
pub fn hash_with_salt(password: &str, salt: &str) -> (r: Result<String, Error>)
    ensures
        match credential_of(password@, salt@) {
            Some(c) => r is Ok && r->Ok_0@ == c,
            None => r matches Err(Error::ServerError { .. }),
        },
        r matches Ok(c) ==> c@.len() == 65 + salt@.len(),
{
    match digest_with_salt(password, salt) {
        Some(mut d) => {
            d.append(".");
            d.append(salt);
            proof {
                reveal_strlit(".");
            }
            Ok(d)
        },
        None => Err(Error::ServerError { message: "salt rejected".to_string() }),
    }
}

/// Hashes a password under a fresh random salt into the credential `<sha256_hex>.<salt>`.
pub fn salt_and_hash_password(password: &str) -> (r: Result<String, Error>)
    ensures
        r matches Ok(c) ==> exists|salt: Seq<char>|
            salt.len() == 22 && dot_free(salt) && #[trigger] credential_of(password@, salt) == Some(
                c@,
            ),
        r is Err ==> r matches Err(Error::ServerError { .. }),
        encode_utf8(password@).len() <= MAX_PASSWORD_BYTES ==> r is Ok,
        r matches Ok(c) ==> c@.len() == 87 && encode_utf8(c@).len() == 87,
{
    let salt = random_salt();
    let r = hash_with_salt(password, salt.as_str());
    proof {
        assert forall|i: int| 0 <= i < salt@.len() implies #[trigger] salt@[i] != '.' by {
            assert(is_b64_char(salt@[i]));
        }
        if r is Ok {
            let c = r->Ok_0@;
            let h = argon2_phc(password@, salt@)->0;
            let b = sha256_of(encode_utf8(h));
            let d = hex_lower(b);
            assert(c == d + seq!['.'] + salt@);
            assert forall|i: int| 0 <= i < c.len() implies '\0' <= #[trigger] c[i] <= '\u{7f}' by {
                if i < d.len() {
                    let x = b[i / 2] as int;
                    crate::hextext::lemma_lower_digit_shape(x / 16);
                    crate::hextext::lemma_lower_digit_shape(x % 16);
                    assert(c[i] == d[i]);
                } else if i == d.len() {
                    assert(c[i] == '.');
                } else {
                    assert(c[i] == salt@[i - d.len() - 1]);
                    assert(is_b64_char(salt@[i - d.len() - 1]));
                }
                crate::crypto::lemma_ascii_char(c[i]);
            }
            vstd::utf8::is_ascii_chars_encode_utf8(c);
        }
    }
    r
}

/// Whether a password matches a stored credential: the credential is split at its last `.`,
/// the digest is recomputed under the salt after it and compared in constant time.
pub fn verify_password_hash(password: &str, hash: &str) -> (r: bool)
    ensures
        r == credential_matches(password@, hash@),
{
    let n = hash.unicode_len();
    let k = rfind_char(hash, n, '.');
    if k == n {
        return false;
    }
    let salt = hash.substring_char(k + 1, n);
    let stored = hash.substring_char(0, k);
    proof {
        assert(is_last_dot(hash@, k as int));
        assert forall|k2: int| #[trigger] is_last_dot(hash@, k2) implies k2 == k by {
            if k2 < k {
                assert(hash@[k as int] == '.');
            } else if k2 > k {
                assert(hash@[k2] == '.');
            }
        }
    }
    match digest_with_salt(password, salt) {
        Some(d) => constant_time_eq(d.as_str(), stored),
        None => false,
    }
}

/// A credential made for a password under a dot-free salt verifies against that password.
pub proof fn lemma_hash_then_verify(password: Seq<char>, salt: Seq<char>)
    requires
        dot_free(salt),
        credential_of(password, salt) is Some,
    ensures
        credential_matches(password, credential_of(password, salt)->0),
{
    let d = password_digest(password, salt)->0;
    let c = d + seq!['.'] + salt;
    let k = d.len() as int;
    assert(dot_free(d)) by {
        lemma_hex_is_dot_free(sha256_of(encode_utf8(argon2_phc(password, salt)->0)));
    }
    assert(c[k] == '.');
    assert forall|j: int| k < j < c.len() implies c[j] != '.' by {
        assert(c[j] == salt[j - k - 1]);
    }
    assert(is_last_dot(c, k));
    assert(c.subrange(k + 1, c.len() as int) =~= salt);
    assert(c.subrange(0, k) =~= d);
}

proof fn lemma_hex_is_dot_free(b: Seq<u8>)
    ensures
        dot_free(hex_lower(b)),
{
    let h = hex_lower(b);
    assert forall|i: int| 0 <= i < h.len() implies #[trigger] h[i] != '.' by {
        let x = b[i / 2] as int;
        crate::hextext::lemma_lower_digit_shape(x / 16);
        crate::hextext::lemma_lower_digit_shape(x % 16);
    }
}

} // verus!
