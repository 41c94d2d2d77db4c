use vstd::prelude::*;
use vstd::string::StringSliceAdditionalSpecFns;
use crate::crypto::{is_key_string, key_parts, sealed_text, Encryption};

use crate::dek::Dek;
use crate::error::Error;
use crate::ids::new_id;
use crate::password::{
    credential_matches, credential_of, salt_and_hash_password, verify_password_hash, MAX_PASSWORD_BYTES,
};
use vstd::utf8::encode_utf8;
use crate::session::Session;
use crate::user::{sealable, User};
use crate::validation::{form_email_shape, password_acceptable, Validation};

verus! {

/// Fields of a sign-up request.
#[derive(Clone, Debug)]
pub struct SignUpPayload {
    pub name: String,
    pub email: String,
    pub password: String,
    pub role: String,
}

/// Fields of a sign-in request.
#[derive(Clone, Debug)]
pub struct SignInPayload {
    pub email: String,
    pub password: String,
}

/// The session part of a sign-in or sign-up answer; `session_id` is encrypted under the user's
/// data key so that it is opaque to the client.
#[derive(Clone, Debug)]
pub struct SessionResponseForSignInOrSignUp {
    pub session_id: String,
    pub id_token: String,
    pub refresh_token: String,
}

/// The answer to a successful sign-in or sign-up.
#[derive(Clone, Debug)]
pub struct SignInOrSignUpResponse {
    pub message: String,
    pub uid: String,
    pub name: String,
    pub email: String,
    pub role: String,
    pub created_at: Option<i64>,
    pub updated_at: Option<i64>,
    pub email_verified: bool,
    pub is_active: bool,
    pub session: SessionResponseForSignInOrSignUp,
}

/// A user about to be created, with its password already hashed, and its fresh data key.
#[derive(Clone, Debug)]
pub struct NewAccount {
    pub user: User,
    pub dek: String,
}

/// Orchestration of sign-up and sign-in.
pub struct Auth;

impl Auth {
    /// Checks a sign-up request: every field set, the email well formed, the password within
    /// policy and a user agent given, in that order.
    pub fn validate_sign_up(payload: &SignUpPayload, user_agent: &str) -> (r: Result<(), Error>)
        ensures
            if payload.name@.len() == 0 || payload.email@.len() == 0 || payload.role@.len() == 0
                || payload.password@.len() == 0 {
                r matches Err(Error::InvalidPayload { .. })
            } else if !form_email_shape(payload.email@) {
                r matches Err(Error::InvalidEmail { .. })
            } else if !password_acceptable(payload.password@) {
                r matches Err(Error::InvalidPassword { .. })
            } else if user_agent@.len() == 0 {
                r matches Err(Error::InvalidUserAgent { .. })
            } else {
                r is Ok
            },
    {
        if payload.name.as_str().is_empty() || payload.email.as_str().is_empty()
            || payload.role.as_str().is_empty() || payload.password.as_str().is_empty() {
            return Err(Error::InvalidPayload { message: "Invalid payload".to_string() });
        }
        if !Validation::email(payload.email.as_str()) {
            return Err(Error::InvalidEmail { message: "Invalid email".to_string() });
        }
        if !Validation::password(payload.password.as_str()) {
            return Err(Error::InvalidPassword { message: "Password does not meet the policy".to_string() });
        }
        if user_agent.is_empty() {
            return Err(Error::InvalidUserAgent { message: "Invalid user agent".to_string() });
        }
        Ok(())
    }

    /// Checks a sign-in request: email and password set, the email well formed, a user agent
    /// given, in that order.
    pub fn validate_sign_in(payload: &SignInPayload, user_agent: &str) -> (r: Result<(), Error>)
        ensures
            if payload.email@.len() == 0 || payload.password@.len() == 0 {
                r matches Err(Error::InvalidPayload { .. })
            } else if !form_email_shape(payload.email@) {
                r matches Err(Error::InvalidEmail { .. })
            } else if user_agent@.len() == 0 {
                r matches Err(Error::InvalidUserAgent { .. })
            } else {
                r is Ok
            },
    {
        if payload.email.as_str().is_empty() || payload.password.as_str().is_empty() {
            return Err(Error::InvalidPayload { message: "Invalid payload".to_string() });
        }
        if !Validation::email(payload.email.as_str()) {
            return Err(Error::InvalidEmail { message: "Invalid email".to_string() });
        }
        if user_agent.is_empty() {
            return Err(Error::InvalidUserAgent { message: "Invalid user agent".to_string() });
        }
        Ok(())
    }

    /// The account a sign-up creates at `now`: a fresh uid, the request's fields with the
    /// password hashed under a fresh salt, and a fresh data key.
    pub fn new_account(payload: &SignUpPayload, now: i64) -> (r: Result<NewAccount, Error>)
        ensures
            r matches Ok(a) ==> {
                &&& a.user.uid@.len() == 36
                &&& a.user.name@ == payload.name@
                &&& a.user.email@ == payload.email@
                &&& a.user.role@ == payload.role@
                &&& exists|salt: Seq<char>| #[trigger]
                    credential_of(payload.password@, salt) == Some(a.user.password@)
                &&& !a.user.email_verified && a.user.is_active
                &&& a.user.failed_login_attempts == 0 && a.user.blocked_until is None
                &&& a.user.created_at == Some(now) && a.user.updated_at == Some(now)
                &&& is_key_string(a.dek@)
                &&& key_parts(encode_utf8(a.dek@)) is Some
                &&& encode_utf8(a.user.password@).len() == 87
            },
            r is Err ==> r matches Err(Error::ServerError { .. }),
            encode_utf8(payload.password@).len() <= MAX_PASSWORD_BYTES ==> r is Ok,
    {
        let uid = new_id();
        let hashed = salt_and_hash_password(payload.password.as_str())?;
        let user = User::new(
            uid.as_str(),
            payload.name.as_str(),
            payload.email.as_str(),
            payload.role.as_str(),
            hashed.as_str(),
            now,
        );
        let dek = Dek::generate();
        proof {
            crate::crypto::lemma_key_string_parts(dek@);
        }
        Ok(NewAccount { user, dek })
    }

    /// Whether a (decrypted) user may sign in at `now` with a password: refused while a lockout
    /// runs, refused on a wrong password, accepted otherwise.
    pub fn check_credentials(user: &User, password: &str, now: i64) -> (r: Result<(), Error>)
        ensures
            if user.blocked_until matches Some(t) && t > now {
                r matches Err(Error::UserBlocked { .. })
            } else if !credential_matches(password@, user.password@) {
                r matches Err(Error::WrongCredentials { .. })
            } else {
                r is Ok
            },
    {
        if user.is_blocked(now) {
            return Err(Error::UserBlocked { message: "User is blocked".to_string() });
        }
        if !verify_password_hash(password, user.password.as_str()) {
            return Err(Error::WrongCredentials { message: "Invalid credentials".to_string() });
        }
        Ok(())
    }

    /// The answer to a sign-in or sign-up: the user's fields and the new session, whose id is
    /// encrypted under the user's data key while its tokens are handed out as they are.
    pub fn response(message: &str, user: &User, session: &Session, dek: &str) -> (r: Result<
        SignInOrSignUpResponse,
        Error,
    >)
        ensures
            r matches Ok(a) ==> {
                &&& a.message@ == message@
                &&& a.uid@ == user.uid@ && a.name@ == user.name@ && a.email@ == user.email@
                &&& a.role@ == user.role@
                &&& a.created_at == user.created_at && a.updated_at == user.updated_at
                &&& a.email_verified == user.email_verified && a.is_active == user.is_active
                &&& sealed_text(session.session_id@, dek.spec_bytes()) == Some(a.session.session_id@)
                &&& a.session.id_token@ == session.id_token@
                &&& a.session.refresh_token@ == session.refresh_token@
            },
            r is Err ==> r matches Err(Error::CryptoFailure { .. }),
            key_parts(dek.spec_bytes()) is Some && sealable(session.session_id@) ==> r is Ok,
    {
        let session_id = Encryption::encrypt_data(session.session_id.as_str(), dek)?;
        Ok(SignInOrSignUpResponse {
            message: message.to_string(),
            uid: user.uid.clone(),
            name: user.name.clone(),
            email: user.email.clone(),
            role: user.role.clone(),
            created_at: user.created_at,
            updated_at: user.updated_at,
            email_verified: user.email_verified,
            is_active: user.is_active,
            session: SessionResponseForSignInOrSignUp {
                session_id,
                id_token: session.id_token.clone(),
                refresh_token: session.refresh_token.clone(),
            },
        })
    }
}

} // verus!
