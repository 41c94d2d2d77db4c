use vstd::prelude::*;
use vstd::string::StringSliceAdditionalSpecFns;
use vstd::utf8::encode_utf8;
use crate::crypto::{key_parts, opened_text, sealed_text, Encryption, GCM_MAX_PLAINTEXT};
use crate::error::Error;

verus! {

/// A text field fits in one AES-GCM message.
pub open spec fn sealable(s: Seq<char>) -> bool {
    encode_utf8(s).len() <= GCM_MAX_PLAINTEXT
}

/// A character takes at most four bytes of UTF-8.
pub proof fn lemma_utf8_len_bound(s: Seq<char>)
    ensures
        encode_utf8(s).len() <= 4 * s.len(),
    decreases s.len(),
{
    if s.len() > 0 {
        lemma_utf8_len_bound(s.drop_first());
    }
}

/// Text of up to a million characters fits in one AES-GCM message.
pub proof fn lemma_short_text_sealable(s: Seq<char>)
    requires
        s.len() <= 1_000_000,
    ensures
        sealable(s),
{
    lemma_utf8_len_bound(s);
}

/// Encrypts one text field; the contract is that of `Encryption::encrypt_data`.
pub(crate) fn seal_field(x: &String, key: &str) -> (r: Result<String, Error>)
    ensures
        r matches Ok(c) ==> sealed_text(x@, key.spec_bytes()) == Some(c@),
        key_parts(key.spec_bytes()) is None ==> r is Err,
        key_parts(key.spec_bytes()) is Some && sealable(x@) ==> r is Ok,
        forall|y: Seq<char>|
            r is Ok && #[trigger] sealed_text(y, key.spec_bytes()) == Some(r->Ok_0@) ==> y == x@,
{
    Encryption::encrypt_data(x.as_str(), key)
}

/// Decrypts one text field; the contract is that of `Encryption::decrypt_data`.
pub(crate) fn open_field(x: &String, key: &str) -> (r: Result<String, Error>)
    ensures
        match opened_text(x@, key.spec_bytes()) {
            Some(p) => r is Ok && r->Ok_0@ == p,
            None => r is Err,
        },
        forall|y: Seq<char>|
            sealable(y) && #[trigger] sealed_text(y, key.spec_bytes()) == Some(x@) ==> r is Ok
                && r->Ok_0@ == y,
{
    Encryption::decrypt_data(x.as_str(), key)
}

/// A user account. Times are milliseconds since the Unix epoch.
#[derive(Clone, Debug)]
pub struct User {
    pub uid: String,
    pub name: String,
    pub email: String,
    pub role: String,
    pub password: String,
    pub email_verified: bool,
    pub is_active: bool,
    pub failed_login_attempts: i32,
    pub blocked_until: Option<i64>,
    pub created_at: Option<i64>,
    pub updated_at: Option<i64>,
}

pub struct UserView {
    pub uid: Seq<char>,
    pub name: Seq<char>,
    pub email: Seq<char>,
    pub role: Seq<char>,
    pub password: Seq<char>,
    pub email_verified: bool,
    pub is_active: bool,
    pub failed_login_attempts: i32,
    pub blocked_until: Option<i64>,
    pub created_at: Option<i64>,
    pub updated_at: Option<i64>,
}

impl View for User {
    type V = UserView;

    open spec fn view(&self) -> UserView {
        UserView {
            uid: self.uid@,
            name: self.name@,
            email: self.email@,
            role: self.role@,
            password: self.password@,
            email_verified: self.email_verified,
            is_active: self.is_active,
            failed_login_attempts: self.failed_login_attempts,
            blocked_until: self.blocked_until,
            created_at: self.created_at,
            updated_at: self.updated_at,
        }
    }
}

/// Every encrypted field of a user fits in one AES-GCM message.
pub open spec fn user_sealable(u: UserView) -> bool {
    sealable(u.name) && sealable(u.email) && sealable(u.role) && sealable(u.password)
}

/// The stored form of a user under its data key: name, email, role and password encrypted,
/// everything else, the uid included, as it is.
pub open spec fn seal_user(u: UserView, key: Seq<u8>) -> Option<UserView> {
    match (
        sealed_text(u.name, key),
        sealed_text(u.email, key),
        sealed_text(u.role, key),
        sealed_text(u.password, key),
    ) {
        (Some(n), Some(e), Some(r), Some(p)) => Some(
            UserView { name: n, email: e, role: r, password: p, ..u },
        ),
        _ => None,
    }
}

/// The plain form of a stored user under its data key.
pub open spec fn open_user(u: UserView, key: Seq<u8>) -> Option<UserView> {
    match (
        opened_text(u.name, key),
        opened_text(u.email, key),
        opened_text(u.role, key),
        opened_text(u.password, key),
    ) {
        (Some(n), Some(e), Some(r), Some(p)) => Some(
            UserView { name: n, email: e, role: r, password: p, ..u },
        ),
        _ => None,
    }
}

/// Milliseconds a lockout lasts after a given count of consecutive failed sign-ins;
/// `None` where the count is no threshold.
pub open spec fn lockout_ms(attempts: int) -> Option<i64> {
    if attempts == 5 {
        Some(180_000)
    } else if attempts == 10 {
        Some(600_000)
    } else if attempts == 15 {
        Some(3_600_000)
    } else {
        None
    }
}

/// What a failed sign-in does beyond counting it.
#[derive(Clone, Copy, Debug, PartialEq, Eq, Structural)]
pub struct FailedAttemptOutcome {
    /// The count after this failure.
    pub attempts: i32,
    /// The new end of the lockout, when this count reaches a threshold.
    pub blocked_until: Option<i64>,
    /// Whether the account holder is warned by mail.
    pub notify: bool,
}

impl User {
    /// A new, active, unverified account with no failed sign-ins, created at `now`.
    pub fn new(uid: &str, name: &str, email: &str, role: &str, password: &str, now: i64) -> (r: User)
        ensures
            r.uid@ == uid@,
            r.name@ == name@,
            r.email@ == email@,
            r.role@ == role@,
            r.password@ == password@,
            !r.email_verified,
            r.is_active,
            r.failed_login_attempts == 0,
            r.blocked_until is None,
            r.created_at == Some(now),
            r.updated_at == Some(now),
    {
        User {
            uid: uid.to_string(),
            name: name.to_string(),
            email: email.to_string(),
            role: role.to_string(),
            password: password.to_string(),
            email_verified: false,
            is_active: true,
            failed_login_attempts: 0,
            blocked_until: None,
            created_at: Some(now),
            updated_at: Some(now),
        }
    }

    /// The stored form of this user under its data key.
    pub fn encrypt(&self, dek: &str) -> (r: Result<User, Error>)
        ensures
            r matches Ok(u) ==> seal_user(self@, dek.spec_bytes()) == Some(u@),
            key_parts(dek.spec_bytes()) is None ==> r is Err,
            key_parts(dek.spec_bytes()) is Some && sealable(self.name@) && sealable(self.email@)
                && sealable(self.role@) && sealable(self.password@) ==> r is Ok,
    {
        let name = seal_field(&self.name, dek)?;
        let email = seal_field(&self.email, dek)?;
        let role = seal_field(&self.role, dek)?;
        let password = seal_field(&self.password, dek)?;
        Ok(User {
            uid: self.uid.clone(),
            name,
            email,
            role,
            password,
            email_verified: self.email_verified,
            is_active: self.is_active,
            failed_login_attempts: self.failed_login_attempts,
            blocked_until: self.blocked_until,
            created_at: self.created_at,
            updated_at: self.updated_at,
        })
    }

    /// The plain form of a stored user under its data key; a user encrypted under the same key
    /// comes back unchanged.
    pub fn decrypt(&self, dek: &str) -> (r: Result<User, Error>)
        ensures
            match open_user(self@, dek.spec_bytes()) {
                Some(v) => r is Ok && r->Ok_0@ == v,
                None => r is Err,
            },
            forall|v: UserView|
                user_sealable(v) && #[trigger] seal_user(v, dek.spec_bytes()) == Some(self@) ==> r
                    is Ok && r->Ok_0@ == v,
    {
        let name = open_field(&self.name, dek)?;
        let email = open_field(&self.email, dek)?;
        let role = open_field(&self.role, dek)?;
        let password = open_field(&self.password, dek)?;
        Ok(User {
            uid: self.uid.clone(),
            name,
            email,
            role,
            password,
            email_verified: self.email_verified,
            is_active: self.is_active,
            failed_login_attempts: self.failed_login_attempts,
            blocked_until: self.blocked_until,
            created_at: self.created_at,
            updated_at: self.updated_at,
        })
    }

    /// A copy of this user.
    pub fn clone_user(&self) -> (r: User)
        ensures
            r@ == self@,
    {
        User {
            uid: self.uid.clone(),
            name: self.name.clone(),
            email: self.email.clone(),
            role: self.role.clone(),
            password: self.password.clone(),
            email_verified: self.email_verified,
            is_active: self.is_active,
            failed_login_attempts: self.failed_login_attempts,
            blocked_until: self.blocked_until,
            created_at: self.created_at,
            updated_at: self.updated_at,
        }
    }

    /// The stored user a lookup found, decrypted under its data key; `UserNotFound` when there
    /// was none.
    pub fn from_found(found: Option<User>, dek: &str) -> (r: Result<User, Error>)
        ensures
            found is None ==> r matches Err(Error::UserNotFound { .. }),
            found matches Some(u) ==> match open_user(u@, dek.spec_bytes()) {
                Some(v) => r is Ok && r->Ok_0@ == v,
                None => r is Err,
            },
    {
        match found {
            None => Err(Error::UserNotFound { message: "User not found".to_string() }),
            Some(u) => u.decrypt(dek),
        }
    }

    /// Whether sign-in is refused at `now` because a lockout is still running.
    pub fn is_blocked(&self, now: i64) -> (r: bool)
        ensures
            r == (self.blocked_until matches Some(t) && t > now),
    {
        match self.blocked_until {
            Some(t) => t > now,
            None => false,
        }
    }

    /// What a failed sign-in at `now` does, given the count of consecutive failures after it:
    /// at 5, 10 and 15 a lockout of 180 s, 600 s and 3600 s starts and a warning is mailed;
    /// at any other count nothing but the counter changes.
    pub fn failed_attempt_outcome(attempts: i32, now: i64) -> (r: FailedAttemptOutcome)
        requires
            now <= i64::MAX - 3_600_000,
        ensures
            r.attempts == attempts,
            r.blocked_until == (match lockout_ms(attempts as int) {
                Some(d) => Some((now + d) as i64),
                None => None::<i64>,
            }),
            r.notify == (lockout_ms(attempts as int) is Some),
    {
        let ms: Option<i64> = if attempts == 5 {
            Some(180_000)
        } else if attempts == 10 {
            Some(600_000)
        } else if attempts == 15 {
            Some(3_600_000)
        } else {
            None
        };
        match ms {
            Some(d) => FailedAttemptOutcome { attempts, blocked_until: Some(now + d), notify: true },
            None => FailedAttemptOutcome { attempts, blocked_until: None, notify: false },
        }
    }
}

/// The lockout schedule: the fifth consecutive failure blocks for exactly 180 s, the tenth for
/// 600 s, the fifteenth for 3600 s; between thresholds, and past the last, only the counter moves.
pub proof fn lemma_lockout_schedule(attempts: int)
    ensures
        attempts == 5 ==> lockout_ms(attempts) == Some(180_000i64),
        attempts == 10 ==> lockout_ms(attempts) == Some(600_000i64),
        attempts == 15 ==> lockout_ms(attempts) == Some(3_600_000i64),
        (attempts != 5 && attempts != 10 && attempts != 15) ==> lockout_ms(attempts) is None,
        attempts > 15 ==> lockout_ms(attempts) is None,
{
}

} // verus!
