use vstd::prelude::*;
use crate::error::Error;
use crate::user::User;

verus! {

/// Seconds an ID token stays fresh.
pub const ID_TOKEN_TTL: u64 = 3600;

/// Seconds a refresh token stays valid: 45 days.
pub const REFRESH_TOKEN_TTL: u64 = 3_888_000;

/// Text form of a flag inside token claims.
pub open spec fn flag_text(b: bool) -> Seq<char> {
    if b {
        seq!['t', 'r', 'u', 'e']
    } else {
        seq!['f', 'a', 'l', 's', 'e']
    }
}

/// Profile claims carried by an ID token, all as text.
#[derive(Clone, Debug)]
pub struct IdTokenData {
    pub display_name: String,
    pub role: String,
    pub is_active: String,
    pub is_email_verified: String,
}

/// Claims of an ID token. Times are seconds since the Unix epoch.
#[derive(Clone, Debug)]
pub struct IDToken {
    pub uid: String,
    pub iss: String,
    pub iat: u64,
    pub exp: u64,
    pub token_type: String,
    pub data: Option<IdTokenData>,
}

/// Claims of a refresh token. Times are seconds since the Unix epoch.
#[derive(Clone, Debug)]
pub struct RefreshToken {
    pub uid: String,
    pub iss: String,
    pub iat: u64,
    pub exp: u64,
    pub scope: String,
}

/// Why a signed token could not be decoded.
#[derive(Clone, Copy, Debug, PartialEq, Eq, Structural)]
pub enum TokenDecodeError {
    /// Signature good, but the token is past its expiry.
    Expired,
    /// The signature does not verify.
    InvalidSignature,
    /// Anything else: malformed text, wrong algorithm, bad claims.
    Malformed,
}

fn flag_string(b: bool) -> (r: String)
    ensures
        r@ == flag_text(b),
{
    proof {
        reveal_strlit("true");
        reveal_strlit("false");
    }
    if b {
        "true".to_string()
    } else {
        "false".to_string()
    }
}

impl IDToken {
    /// The claims of an ID token for `user` issued by `iss` at `now`, fresh for one hour.
    pub fn new(user: &User, iss: &str, now: u64) -> (r: IDToken)
        requires
            now <= u64::MAX - ID_TOKEN_TTL,
        ensures
            r.uid@ == user.uid@,
            r.iss@ == iss@,
            r.iat == now,
            r.exp == now + ID_TOKEN_TTL,
            r.token_type@ == seq!['i', 'd'],
            r.data matches Some(d) && d.display_name@ == user.name@ && d.role@ == user.role@
                && d.is_active@ == flag_text(user.is_active) && d.is_email_verified@ == flag_text(
                user.email_verified,
            ),
    {
        proof {
            reveal_strlit("id");
        }
        IDToken {
            uid: user.uid.clone(),
            iss: iss.to_string(),
            iat: now,
            exp: now + ID_TOKEN_TTL,
            token_type: "id".to_string(),
            data: Some(
                IdTokenData {
                    display_name: user.name.clone(),
                    role: user.role.clone(),
                    is_active: flag_string(user.is_active),
                    is_email_verified: flag_string(user.email_verified),
                },
            ),
        }
    }

    /// Verification of an ID token from its decodings: `strict` checks expiry, `relaxed` (made
    /// only when `strict` found the token expired) does not. A good token is fresh; an expired
    /// one is returned as stale; a bad signature and any other failure are errors.
    pub fn verify(
        strict: Result<IDToken, TokenDecodeError>,
        relaxed: Option<Result<IDToken, TokenDecodeError>>,
    ) -> (r: Result<(IDToken, bool), Error>)
        ensures
            strict is Ok ==> (r matches Ok((c, fresh)) && fresh && c == strict->Ok_0),
            strict == Err::<IDToken, TokenDecodeError>(TokenDecodeError::Expired) ==> (
            match relaxed {
                Some(Ok(c)) => (r matches Ok((c2, fresh)) && !fresh && c2 == c),
                _ => r matches Err(Error::ServerError { .. }),
            }),
            strict == Err::<IDToken, TokenDecodeError>(TokenDecodeError::InvalidSignature) ==> r matches Err(
                Error::SignatureVerificationError { .. },
            ),
            strict == Err::<IDToken, TokenDecodeError>(TokenDecodeError::Malformed) ==> r matches Err(
                Error::InvalidToken { .. },
            ),
    {
        match strict {
            Ok(c) => Ok((c, true)),
            Err(TokenDecodeError::Expired) => match relaxed {
                Some(Ok(c)) => Ok((c, false)),
                _ => Err(Error::ServerError { message: "Error decoding token".to_string() }),
            },
            Err(TokenDecodeError::InvalidSignature) => Err(
                Error::SignatureVerificationError { message: "Invalid signature".to_string() },
            ),
            Err(TokenDecodeError::Malformed) => Err(
                Error::InvalidToken { message: "Invalid token".to_string() },
            ),
        }
    }
}

/// The claims of a token that verified as fresh; a stale one is refused with `SessionExpired`,
/// as an API answer to a verification must be.
pub fn require_fresh(verified: (IDToken, bool)) -> (r: Result<IDToken, Error>)
    ensures
        verified.1 ==> r == Ok::<IDToken, Error>(verified.0),
        !verified.1 ==> r matches Err(Error::SessionExpired { .. }),
{
    let (claims, fresh) = verified;
    if fresh {
        Ok(claims)
    } else {
        Err(Error::SessionExpired { message: "Session expired".to_string() })
    }
}

impl RefreshToken {
    /// The claims of a refresh token for `uid` issued by `iss` at `now`, valid for 45 days.
    pub fn new(uid: &str, iss: &str, now: u64) -> (r: RefreshToken)
        requires
            now <= u64::MAX - REFRESH_TOKEN_TTL,
        ensures
            r.uid@ == uid@,
            r.iss@ == iss@,
            r.iat == now,
            r.exp == now + REFRESH_TOKEN_TTL,
            r.scope@ == seq!['g', 'e', 't', '_', 'n', 'e', 'w', '_', 'i', 'd', '_', 't', 'o', 'k', 'e', 'n'],
    {
        proof {
            reveal_strlit("get_new_id_token");
        }
        RefreshToken {
            uid: uid.to_string(),
            iss: iss.to_string(),
            iat: now,
            exp: now + REFRESH_TOKEN_TTL,
            scope: "get_new_id_token".to_string(),
        }
    }

    /// Strict verification of a refresh token from its decoding: expired, badly signed and
    /// malformed tokens all fail, each with its own error.
    pub fn verify(decoded: Result<RefreshToken, TokenDecodeError>) -> (r: Result<RefreshToken, Error>)
        ensures
            decoded is Ok ==> r is Ok && r->Ok_0 == decoded->Ok_0,
            decoded == Err::<RefreshToken, TokenDecodeError>(TokenDecodeError::Expired) ==> r matches Err(
                Error::ExpiredSignature { .. },
            ),
            decoded == Err::<RefreshToken, TokenDecodeError>(TokenDecodeError::InvalidSignature) ==> r matches Err(
                Error::SignatureVerificationError { .. },
            ),
            decoded == Err::<RefreshToken, TokenDecodeError>(TokenDecodeError::Malformed) ==> r matches Err(
                Error::InvalidToken { .. },
            ),
    {
        match decoded {
            Ok(c) => Ok(c),
            Err(TokenDecodeError::Expired) => Err(
                Error::ExpiredSignature { message: "Expired signature".to_string() },
            ),
            Err(TokenDecodeError::InvalidSignature) => Err(
                Error::SignatureVerificationError { message: "Invalid signature".to_string() },
            ),
            Err(TokenDecodeError::Malformed) => Err(
                Error::InvalidToken { message: "Invalid token".to_string() },
            ),
        }
    }
}

} // verus!
