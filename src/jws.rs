use vstd::prelude::*;
use jsonwebtoken::errors::ErrorKind;
use jsonwebtoken::{Algorithm, DecodingKey, EncodingKey, Header, Validation};
use vstd::string::StringExecFns;
use serde_json::Value;
use crate::error::Error;
use crate::tokens::{IDToken, IdTokenData, RefreshToken, TokenDecodeError};

verus! {

/// serde_json's `Value`, carried opaquely: the claims handed to the signer.
#[verifier::external_type_specification]
#[verifier::external_body]
pub struct ExJsonValue(serde_json::Value);

/// serde_json's `Map`, carried opaquely: the claims object handed to the signer.
#[verifier::external_type_specification]
#[verifier::external_body]
#[verifier::reject_recursive_types(K)]
#[verifier::reject_recursive_types(V)]
pub struct ExJsonMap<K, V>(serde_json::Map<K, V>);

/// A claim as a JSON value holds it.
pub enum ClaimValue {
    Text(Seq<char>),
    Number(u64),
    Null,
    Object(Seq<(Seq<char>, ClaimValue)>),
}

/// What a JSON object holds: its entries in insertion order (serde_json is built with
/// `preserve_order`, which bson asks for, so an object keeps that order).
pub uninterp spec fn json_entries(m: serde_json::Map<String, serde_json::Value>) -> Seq<
    (Seq<char>, ClaimValue),
>;

/// What a JSON value holds.
pub uninterp spec fn json_claim(v: serde_json::Value) -> ClaimValue;

/// The RS256 JSON web token jsonwebtoken makes of a claims object under an RSA private key in
/// PEM; `None` when the key cannot be read or signing fails.
pub uninterp spec fn rs256_jws(claims: Seq<(Seq<char>, ClaimValue)>, pem: Seq<u8>) -> Option<
    Seq<char>,
>;

/// No entry of `e` has key `k`.
pub open spec fn fresh_key(e: Seq<(Seq<char>, ClaimValue)>, k: Seq<char>) -> bool {
    forall|i: int| 0 <= i < e.len() ==> (#[trigger] e[i]).0 != k
}

/// Relies on `serde_json::Map::new`: an empty object.
pub assume_specification[ serde_json::Map::<String, serde_json::Value>::new ]() -> (r:
    serde_json::Map<String, serde_json::Value>)
    ensures
        json_entries(r) == Seq::<(Seq<char>, ClaimValue)>::empty(),
;

/// Relies on `serde_json::Map::insert` (an `IndexMap` insert under `preserve_order`): a key not
/// yet present goes last.
pub assume_specification[ serde_json::Map::<String, serde_json::Value>::insert ](
    m: &mut serde_json::Map<String, serde_json::Value>,
    k: String,
    v: serde_json::Value,
) -> (r: Option<serde_json::Value>)
    ensures
        fresh_key(json_entries(*old(m)), k@) ==> json_entries(*final(m)) == json_entries(
            *old(m),
        ).push((k@, json_claim(v))),
;

/// Relies on `Value::from(String)`: a JSON string.
pub assume_specification[ <serde_json::Value as core::convert::From<String>>::from ](
    f: String,
) -> (r: serde_json::Value)
    ensures
        json_claim(r) == ClaimValue::Text(f@),
;

/// Relies on `Value::from(u64)`: a JSON number.
pub assume_specification[ <serde_json::Value as core::convert::From<u64>>::from ](
    f: u64,
) -> (r: serde_json::Value)
    ensures
        json_claim(r) == ClaimValue::Number(f),
;

/// Relies on `Value::from(())`: JSON null.
pub assume_specification[ <serde_json::Value as core::convert::From<()>>::from ](
    f: (),
) -> (r: serde_json::Value)
    ensures
        json_claim(r) == ClaimValue::Null,
;

/// Relies on `Value::from(Map)`: the object, nested.
pub assume_specification[ <serde_json::Value as core::convert::From<
    serde_json::Map<String, serde_json::Value>,
>>::from ](f: serde_json::Map<String, serde_json::Value>) -> (r: serde_json::Value)
    ensures
        json_claim(r) == ClaimValue::Object(json_entries(f)),
;

/// jsonwebtoken's `DecodingKey`, carried opaquely from the PEM reader to the verifier.
#[verifier::external_type_specification]
#[verifier::external_body]
pub struct ExDecodingKey(jsonwebtoken::DecodingKey);

/// Relies on `serde_json::Map::get` to read a claim; nothing more is claimed.
pub assume_specification<'a, Q: ?Sized + Ord + Eq + core::hash::Hash>[ serde_json::Map::<
    String,
    serde_json::Value,
>::get::<Q> ](m: &'a serde_json::Map<String, serde_json::Value>, key: &Q) -> Option<
    &'a serde_json::Value,
>
    where
        String: core::borrow::Borrow<Q>,
;

/// Relies on `Value::as_str` to read a string claim; nothing more is claimed.
pub assume_specification[ serde_json::Value::as_str ](v: &serde_json::Value) -> Option<&str>;

/// Relies on `Value::as_u64` to read a numeric claim; nothing more is claimed.
pub assume_specification[ serde_json::Value::as_u64 ](v: &serde_json::Value) -> Option<u64>;

/// Relies on `Value::as_object` to read a nested claims object; nothing more is claimed.
pub assume_specification[ serde_json::Value::as_object ](v: &serde_json::Value) -> Option<
    &serde_json::Map<String, serde_json::Value>,
>;

/// The compact form of a signed token: three non-empty segments joined by exactly two `.`.
pub open spec fn is_compact_jws(t: Seq<char>) -> bool {
    exists|i: int, j: int|
        #![trigger t[i], t[j]]
        0 < i && i + 1 < j && j + 1 < t.len() && t[i] == '.' && t[j] == '.' && forall|k: int|
            0 <= k < t.len() && k != i && k != j ==> t[k] != '.'
}

/// Relies on jsonwebtoken's `encode` under an RS256 header, with the key read by
/// `EncodingKey::from_rsa_pem`: a function of the claims and the key (PKCS#1 v1.5 signing is
/// deterministic); base64url header, claims and signature joined by `.`, base64url holding no `.`.
#[verifier::external_body]
fn sign_rs256(claims: &serde_json::Map<String, Value>, pem: &[u8]) -> (r: Option<String>)
    ensures
        match rs256_jws(json_entries(*claims), pem@) {
            Some(t) => r is Some && r->0@ == t,
            None => r is None,
        },
        r matches Some(t) ==> is_compact_jws(t@),
{
    let key = EncodingKey::from_rsa_pem(pem).ok()?;
    jsonwebtoken::encode(&Header::new(Algorithm::RS256), claims, &key).ok()
}

/// A JSON string claim.
/// Relies on jsonwebtoken's `DecodingKey::from_rsa_pem`: reads an RSA public key in PEM.
#[verifier::external_body]
fn rsa_verifying_key(pem: &[u8]) -> (r: Option<DecodingKey>) {
    DecodingKey::from_rsa_pem(pem).ok()
}

/// Relies on jsonwebtoken's `decode` under RS256 validation: the claims object of a token whose
/// signature verifies and, when `check_expiry` is set, whose expiry is not past; otherwise the
/// kind of failure. An expired signature is reported only when expiry is checked.
#[verifier::external_body]
fn decode_rs256(token: &str, key: &DecodingKey, check_expiry: bool) -> (r: Result<
    serde_json::Map<String, Value>,
    TokenDecodeError,
>)
    ensures
        !check_expiry ==> !(r matches Err(TokenDecodeError::Expired)),
{
    let mut validation = Validation::new(Algorithm::RS256);
    validation.validate_exp = check_expiry;
    match jsonwebtoken::decode::<serde_json::Map<String, Value>>(token, key, &validation) {
        Ok(data) => Ok(data.claims),
        Err(e) => Err(match e.kind() {
            ErrorKind::ExpiredSignature => TokenDecodeError::Expired,
            ErrorKind::InvalidSignature => TokenDecodeError::InvalidSignature,
            _ => TokenDecodeError::Malformed,
        }),
    }
}

/// A string claim, if present as a string.
fn text_claim(m: &serde_json::Map<String, Value>, name: &str) -> Option<String> {
    match m.get(name) {
        Some(v) => match v.as_str() {
            Some(s) => Some(s.to_string()),
            None => None,
        },
        None => None,
    }
}

/// A numeric claim, if present as an unsigned integer.
fn number_claim(m: &serde_json::Map<String, Value>, name: &str) -> Option<u64> {
    match m.get(name) {
        Some(v) => v.as_u64(),
        None => None,
    }
}

/// A JSON string claim.
fn text(s: &str) -> (r: Value)
    ensures
        json_claim(r) == ClaimValue::Text(s@),
{
    Value::from(String::from_str(s))
}

/// Sets one claim under a key not yet present.
fn put(m: &mut serde_json::Map<String, Value>, k: &str, v: Value)
    requires
        fresh_key(json_entries(*old(m)), k@),
    ensures
        json_entries(*final(m)) == json_entries(*old(m)).push((k@, json_claim(v))),
{
    let _ = m.insert(String::from_str(k), v);
}

/// The profile claims of an ID token, in the order they are written.
pub open spec fn data_claims(d: IdTokenData) -> Seq<(Seq<char>, ClaimValue)> {
    seq![
        ("display_name"@, ClaimValue::Text(d.display_name@)),
        ("role"@, ClaimValue::Text(d.role@)),
        ("is_active"@, ClaimValue::Text(d.is_active@)),
        ("is_email_verified"@, ClaimValue::Text(d.is_email_verified@)),
    ]
}

/// The claims of an ID token, in the order they are written.
pub open spec fn id_claims(t: IDToken) -> Seq<(Seq<char>, ClaimValue)> {
    seq![
        ("uid"@, ClaimValue::Text(t.uid@)),
        ("iss"@, ClaimValue::Text(t.iss@)),
        ("iat"@, ClaimValue::Number(t.iat)),
        ("exp"@, ClaimValue::Number(t.exp)),
        ("token_type"@, ClaimValue::Text(t.token_type@)),
        (
            "data"@,
            match t.data {
                Some(d) => ClaimValue::Object(data_claims(d)),
                None => ClaimValue::Null,
            },
        ),
    ]
}

/// The claims of a refresh token, in the order they are written.
pub open spec fn refresh_claims(t: RefreshToken) -> Seq<(Seq<char>, ClaimValue)> {
    seq![
        ("uid"@, ClaimValue::Text(t.uid@)),
        ("iss"@, ClaimValue::Text(t.iss@)),
        ("iat"@, ClaimValue::Number(t.iat)),
        ("exp"@, ClaimValue::Number(t.exp)),
        ("scope"@, ClaimValue::Text(t.scope@)),
        ("data"@, ClaimValue::Null),
    ]
}

impl IdTokenData {
    /// Profile claims read from a claims object; `None` unless all four are strings.
    fn from_claims(m: &serde_json::Map<String, Value>) -> Option<IdTokenData> {
        let display_name = text_claim(m, "display_name")?;
        let role = text_claim(m, "role")?;
        let is_active = text_claim(m, "is_active")?;
        let is_email_verified = text_claim(m, "is_email_verified")?;
        Some(IdTokenData { display_name, role, is_active, is_email_verified })
    }

    /// The profile claims as a JSON object.
    fn to_json(&self) -> (r: Value)
        ensures
            json_claim(r) == ClaimValue::Object(data_claims(*self)),
    {
        proof {
            reveal_strlit("display_name");
            reveal_strlit("role");
            reveal_strlit("is_active");
            reveal_strlit("is_email_verified");
            assert("display_name"@ != "role"@) by { assert("display_name"@.len() != "role"@.len()); }
            assert("display_name"@ != "is_active"@) by { assert("display_name"@.len() != "is_active"@.len()); }
            assert("display_name"@ != "is_email_verified"@) by { assert("display_name"@.len() != "is_email_verified"@.len()); }
            assert("role"@ != "is_active"@) by { assert("role"@.len() != "is_active"@.len()); }
            assert("role"@ != "is_email_verified"@) by { assert("role"@.len() != "is_email_verified"@.len()); }
            assert("is_active"@ != "is_email_verified"@) by { assert("is_active"@.len() != "is_email_verified"@.len()); }
        }
        let mut m = serde_json::Map::new();
        put(&mut m, "display_name", text(self.display_name.as_str()));
        put(&mut m, "role", text(self.role.as_str()));
        put(&mut m, "is_active", text(self.is_active.as_str()));
        put(&mut m, "is_email_verified", text(self.is_email_verified.as_str()));
        proof {
            assert(json_entries(m) =~= data_claims(*self));
        }
        Value::from(m)
    }
}

/// A decoding read as ID token claims: claims that are missing or mistyped make the token
/// malformed.
fn read_id_claims(decoded: Result<serde_json::Map<String, Value>, TokenDecodeError>) -> (r: Result<
    IDToken,
    TokenDecodeError,
>)
    ensures
        decoded is Err ==> r == Err::<IDToken, TokenDecodeError>(decoded->Err_0),
{
    match decoded {
        Ok(m) => match IDToken::from_claims(&m) {
            Some(c) => Ok(c),
            None => Err(TokenDecodeError::Malformed),
        },
        Err(e) => Err(e),
    }
}

impl IDToken {
    /// ID token claims read from a claims object; `None` when a claim is missing or mistyped.
    fn from_claims(m: &serde_json::Map<String, Value>) -> Option<IDToken> {
        let uid = text_claim(m, "uid")?;
        let iss = text_claim(m, "iss")?;
        let iat = number_claim(m, "iat")?;
        let exp = number_claim(m, "exp")?;
        let token_type = text_claim(m, "token_type")?;
        let data = match m.get("data") {
            Some(v) => match v.as_object() {
                Some(o) => Some(IdTokenData::from_claims(o)?),
                None => None,
            },
            None => None,
        };
        Some(IDToken { uid, iss, iat, exp, token_type, data })
    }

    /// Verification of an ID token under the RSA public key in PEM: decoded with the expiry
    /// checked and, when it is only expired, once more without; the outcome is then that of
    /// `IDToken::verify` on the two decodings.
    pub fn verify_token(token: &str, public_key_pem: &[u8]) -> (r: Result<(IDToken, bool), Error>)
        ensures
            r is Err ==> (r matches Err(Error::PublicKeyLoadError { .. })) || (r matches Err(
                Error::ServerError { .. },
            )) || (r matches Err(Error::SignatureVerificationError { .. })) || (r matches Err(
                Error::InvalidToken { .. },
            )),
    {
        let key = match rsa_verifying_key(public_key_pem) {
            Some(k) => k,
            None => return Err(Error::PublicKeyLoadError { message: "unreadable verifying key".to_string() }),
        };
        let strict = read_id_claims(decode_rs256(token, &key, true));
        let relaxed = match strict {
            Err(TokenDecodeError::Expired) => Some(read_id_claims(decode_rs256(token, &key, false))),
            _ => None,
        };
        IDToken::verify(strict, relaxed)
    }

    /// Signs these claims with RS256 under an RSA private key given in PEM.
    pub fn sign(&self, private_key_pem: &[u8]) -> (r: Result<String, Error>)
        ensures
            match rs256_jws(id_claims(*self), private_key_pem@) {
                Some(t) => r is Ok && r->Ok_0@ == t,
                None => r matches Err(Error::IdTokenCreationError { .. }),
            },
            r matches Ok(t) ==> is_compact_jws(t@),
    {
        proof {
            reveal_strlit("uid");
            reveal_strlit("iss");
            reveal_strlit("iat");
            reveal_strlit("exp");
            reveal_strlit("token_type");
            reveal_strlit("data");
            assert("uid"@ != "iss"@) by { assert("uid"@[0] != "iss"@[0]); }
            assert("uid"@ != "iat"@) by { assert("uid"@[0] != "iat"@[0]); }
            assert("uid"@ != "exp"@) by { assert("uid"@[0] != "exp"@[0]); }
            assert("uid"@ != "token_type"@) by { assert("uid"@.len() != "token_type"@.len()); }
            assert("uid"@ != "data"@) by { assert("uid"@.len() != "data"@.len()); }
            assert("iss"@ != "iat"@) by { assert("iss"@[1] != "iat"@[1]); }
            assert("iss"@ != "exp"@) by { assert("iss"@[0] != "exp"@[0]); }
            assert("iss"@ != "token_type"@) by { assert("iss"@.len() != "token_type"@.len()); }
            assert("iss"@ != "data"@) by { assert("iss"@.len() != "data"@.len()); }
            assert("iat"@ != "exp"@) by { assert("iat"@[0] != "exp"@[0]); }
            assert("iat"@ != "token_type"@) by { assert("iat"@.len() != "token_type"@.len()); }
            assert("iat"@ != "data"@) by { assert("iat"@.len() != "data"@.len()); }
            assert("exp"@ != "token_type"@) by { assert("exp"@.len() != "token_type"@.len()); }
            assert("exp"@ != "data"@) by { assert("exp"@.len() != "data"@.len()); }
            assert("token_type"@ != "data"@) by { assert("token_type"@.len() != "data"@.len()); }
        }
        let mut m = serde_json::Map::new();
        put(&mut m, "uid", text(self.uid.as_str()));
        put(&mut m, "iss", text(self.iss.as_str()));
        put(&mut m, "iat", Value::from(self.iat));
        put(&mut m, "exp", Value::from(self.exp));
        put(&mut m, "token_type", text(self.token_type.as_str()));
        let data = match &self.data {
            Some(d) => d.to_json(),
            None => Value::from(()),
        };
        put(&mut m, "data", data);
        proof {
            assert(json_entries(m) =~= id_claims(*self));
        }
        match sign_rs256(&m, private_key_pem) {
            Some(t) => Ok(t),
            None => Err(Error::IdTokenCreationError { message: "signing failed".to_string() }),
        }
    }
}

impl RefreshToken {
    /// Refresh token claims read from a claims object; `None` when a claim is missing or
    /// mistyped.
    fn from_claims(m: &serde_json::Map<String, Value>) -> Option<RefreshToken> {
        let uid = text_claim(m, "uid")?;
        let iss = text_claim(m, "iss")?;
        let iat = number_claim(m, "iat")?;
        let exp = number_claim(m, "exp")?;
        let scope = text_claim(m, "scope")?;
        Some(RefreshToken { uid, iss, iat, exp, scope })
    }

    /// Strict verification of a refresh token under the RSA public key in PEM; the outcome is
    /// that of `RefreshToken::verify` on the decoding.
    pub fn verify_token(token: &str, public_key_pem: &[u8]) -> (r: Result<RefreshToken, Error>)
        ensures
            r is Err ==> (r matches Err(Error::PublicKeyLoadError { .. })) || (r matches Err(
                Error::ExpiredSignature { .. },
            )) || (r matches Err(Error::SignatureVerificationError { .. })) || (r matches Err(
                Error::InvalidToken { .. },
            )),
    {
        let key = match rsa_verifying_key(public_key_pem) {
            Some(k) => k,
            None => return Err(Error::PublicKeyLoadError { message: "unreadable verifying key".to_string() }),
        };
        let decoded = match decode_rs256(token, &key, true) {
            Ok(m) => match RefreshToken::from_claims(&m) {
                Some(c) => Ok(c),
                None => Err(TokenDecodeError::Malformed),
            },
            Err(e) => Err(e),
        };
        RefreshToken::verify(decoded)
    }

    /// Signs these claims with RS256 under an RSA private key given in PEM.
    pub fn sign(&self, private_key_pem: &[u8]) -> (r: Result<String, Error>)
        ensures
            match rs256_jws(refresh_claims(*self), private_key_pem@) {
                Some(t) => r is Ok && r->Ok_0@ == t,
                None => r matches Err(Error::RefreshTokenCreationError { .. }),
            },
            r matches Ok(t) ==> is_compact_jws(t@),
    {
        proof {
            reveal_strlit("uid");
            reveal_strlit("iss");
            reveal_strlit("iat");
            reveal_strlit("exp");
            reveal_strlit("scope");
            reveal_strlit("data");
            assert("uid"@ != "iss"@) by { assert("uid"@[0] != "iss"@[0]); }
            assert("uid"@ != "iat"@) by { assert("uid"@[0] != "iat"@[0]); }
            assert("uid"@ != "exp"@) by { assert("uid"@[0] != "exp"@[0]); }
            assert("uid"@ != "scope"@) by { assert("uid"@.len() != "scope"@.len()); }
            assert("uid"@ != "data"@) by { assert("uid"@.len() != "data"@.len()); }
            assert("iss"@ != "iat"@) by { assert("iss"@[1] != "iat"@[1]); }
            assert("iss"@ != "exp"@) by { assert("iss"@[0] != "exp"@[0]); }
            assert("iss"@ != "scope"@) by { assert("iss"@.len() != "scope"@.len()); }
            assert("iss"@ != "data"@) by { assert("iss"@.len() != "data"@.len()); }
            assert("iat"@ != "exp"@) by { assert("iat"@[0] != "exp"@[0]); }
            assert("iat"@ != "scope"@) by { assert("iat"@.len() != "scope"@.len()); }
            assert("iat"@ != "data"@) by { assert("iat"@.len() != "data"@.len()); }
            assert("exp"@ != "scope"@) by { assert("exp"@.len() != "scope"@.len()); }
            assert("exp"@ != "data"@) by { assert("exp"@.len() != "data"@.len()); }
            assert("scope"@ != "data"@) by { assert("scope"@.len() != "data"@.len()); }
        }
        let mut m = serde_json::Map::new();
        put(&mut m, "uid", text(self.uid.as_str()));
        put(&mut m, "iss", text(self.iss.as_str()));
        put(&mut m, "iat", Value::from(self.iat));
        put(&mut m, "exp", Value::from(self.exp));
        put(&mut m, "scope", text(self.scope.as_str()));
        put(&mut m, "data", Value::from(()));
        proof {
            assert(json_entries(m) =~= refresh_claims(*self));
        }
        match sign_rs256(&m, private_key_pem) {
            Some(t) => Ok(t),
            None => Err(Error::RefreshTokenCreationError { message: "signing failed".to_string() }),
        }
    }
}

} // verus!
