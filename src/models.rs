use vstd::prelude::*;
use crate::session::SessionResponse;
use crate::user::User;

verus! {

/// Fields of a forgotten-password reset.
#[derive(Clone, Debug)]
pub struct ForgetPasswordResetPayload {
    pub email: String,
    pub password: String,
}

/// Fields of a forgotten-password request.
#[derive(Clone, Debug)]
pub struct ForgetPasswordRequestPayload {
    pub email: String,
}

/// Fields of a password change.
#[derive(Clone, Debug)]
pub struct ResetPasswordPayload {
    pub email: String,
    pub old_password: String,
    pub new_password: String,
}

/// An email address alone.
#[derive(Clone, Debug)]
pub struct ForgetPasswordPayload {
    pub email: String,
}

/// A token to verify.
#[derive(Clone, Debug)]
pub struct VerifySession {
    pub token: String,
}

/// Fields of a refresh request.
#[derive(Clone, Debug)]
pub struct SessionRefreshPayload {
    pub uid: String,
    pub session_id: String,
    pub id_token: String,
    pub refresh_token: String,
}

/// The answer to a refresh.
#[derive(Clone, Debug)]
pub struct SessionRefreshResult {
    pub uid: String,
    pub session_id: String,
    pub id_token: String,
    pub refresh_token: String,
}

#[derive(Clone, Debug)]
pub struct RevokeAllSessionsPayload {
    pub uid: String,
}

#[derive(Clone, Debug)]
pub struct RevokeAllSessionsResult {
    pub message: String,
}

#[derive(Clone, Debug)]
pub struct RevokeSessionsPayload {
    pub session_id: String,
    pub uid: String,
}

#[derive(Clone, Debug)]
pub struct RevokeSessionsResult {
    pub message: String,
}

#[derive(Clone, Debug)]
pub struct DeleteAllSessionsPayload {
    pub uid: String,
}

#[derive(Clone, Debug)]
pub struct DeleteAllSessionsResult {
    pub message: String,
}

#[derive(Clone, Debug)]
pub struct DeleteSessionsPayload {
    pub session_id: String,
    pub uid: String,
}

#[derive(Clone, Debug)]
pub struct DeleteSessionsResult {
    pub message: String,
}

#[derive(Clone, Debug)]
pub struct SessionDetailsPayload {
    pub uid: String,
    pub session_id: String,
}

#[derive(Clone, Debug)]
pub struct UserEmailPayload {
    pub email: String,
}

#[derive(Clone, Debug)]
pub struct UserEmailResponse {
    pub message: String,
    pub email: String,
}

#[derive(Clone, Debug)]
pub struct UserIdPayload {
    pub uid: String,
}

#[derive(Clone, Debug)]
pub struct UserId {
    pub uid: String,
}

#[derive(Clone, Debug)]
pub struct UpdateUserPayload {
    pub name: String,
    pub email: String,
}

#[derive(Clone, Debug)]
pub struct UpdateUserResponse {
    pub email: String,
    pub name: String,
}

#[derive(Clone, Debug)]
pub struct UpdateUserRolePayload {
    pub role: String,
    pub email: String,
}

#[derive(Clone, Debug)]
pub struct UpdateUserRoleResponse {
    pub message: String,
    pub email: String,
    pub role: String,
}

#[derive(Clone, Debug)]
pub struct ToggleUserActivationStatusPayload {
    pub is_active: Option<bool>,
    pub email: String,
}

#[derive(Clone, Debug)]
pub struct ToggleUserActivationStatusResponse {
    pub message: String,
    pub email: String,
    pub is_active: bool,
}

#[derive(Clone, Debug)]
pub struct RecentUserPayload {
    pub limit: i64,
}

#[derive(Clone, Debug)]
pub struct EmailVerificationPayload {
    pub req_id: String,
}

#[derive(Clone, Debug)]
pub struct EmailVerificationResponse {
    pub message: String,
    pub req_id: String,
}

#[derive(Clone, Debug)]
pub struct BlockUserPayload {
    pub req_id: String,
}

#[derive(Clone, Debug)]
pub struct BlockUserResponse {
    pub message: String,
    pub req_id: String,
}

/// What is shown of a user: everything but the credential and the failed sign-in counter.
#[derive(Clone, Debug)]
pub struct UserResponse {
    pub uid: String,
    pub name: String,
    pub role: String,
    pub email: String,
    pub email_verified: bool,
    pub is_active: bool,
    pub blocked_until: Option<i64>,
    pub created_at: Option<i64>,
    pub updated_at: Option<i64>,
}

impl User {
    /// What is shown of this user.
    pub fn to_response(&self) -> (r: UserResponse)
        ensures
            r.uid@ == self.uid@,
            r.name@ == self.name@,
            r.role@ == self.role@,
            r.email@ == self.email@,
            r.email_verified == self.email_verified,
            r.is_active == self.is_active,
            r.blocked_until == self.blocked_until,
            r.created_at == self.created_at,
            r.updated_at == self.updated_at,
    {
        UserResponse {
            uid: self.uid.clone(),
            name: self.name.clone(),
            role: self.role.clone(),
            email: self.email.clone(),
            email_verified: self.email_verified,
            is_active: self.is_active,
            blocked_until: self.blocked_until,
            created_at: self.created_at,
            updated_at: self.updated_at,
        }
    }
}

/// Aggregate counts over all users and sessions.
#[derive(Clone, Debug)]
pub struct OverviewResponse {
    pub user_count: usize,
    pub active_user_count: usize,
    pub inactive_user_count: usize,
    pub blocked_user_count: usize,
    pub revoked_session_count: usize,
    pub active_session_count: usize,
    pub os_types: Vec<String>,
    pub device_types: Vec<String>,
    pub browser_types: Vec<String>,
}

pub open spec fn blocked_at(u: UserResponse, now: i64) -> bool {
    u.blocked_until matches Some(t) && t > now
}

/// How many of the first `n` users are active.
pub open spec fn active_users(us: Seq<UserResponse>, n: int) -> nat
    decreases n,
{
    if n <= 0 {
        0
    } else {
        active_users(us, n - 1) + if us[n - 1].is_active {
            1nat
        } else {
            0nat
        }
    }
}

/// How many of the first `n` users are locked out at `now`.
pub open spec fn blocked_users(us: Seq<UserResponse>, n: int, now: i64) -> nat
    decreases n,
{
    if n <= 0 {
        0
    } else {
        blocked_users(us, n - 1, now) + if blocked_at(us[n - 1], now) {
            1nat
        } else {
            0nat
        }
    }
}

/// How many of the first `n` sessions are revoked.
pub open spec fn revoked_sessions(ss: Seq<SessionResponse>, n: int) -> nat
    decreases n,
{
    if n <= 0 {
        0
    } else {
        revoked_sessions(ss, n - 1) + if ss[n - 1].is_revoked {
            1nat
        } else {
            0nat
        }
    }
}

proof fn lemma_count_bounded_users(us: Seq<UserResponse>, n: int, now: i64)
    requires
        0 <= n <= us.len(),
    ensures
        active_users(us, n) <= n,
        blocked_users(us, n, now) <= n,
    decreases n,
{
    if n > 0 {
        lemma_count_bounded_users(us, n - 1, now);
    }
}

proof fn lemma_count_bounded_sessions(ss: Seq<SessionResponse>, n: int)
    requires
        0 <= n <= ss.len(),
    ensures
        revoked_sessions(ss, n) <= n,
    decreases n,
{
    if n > 0 {
        lemma_count_bounded_sessions(ss, n - 1);
    }
}

impl OverviewResponse {
    /// Counts users (all, active, inactive, locked out at `now`) and sessions (revoked, live).
    pub fn from_records(users: &Vec<UserResponse>, sessions: &Vec<SessionResponse>, now: i64) -> (r:
        OverviewResponse)
        ensures
            r.user_count == users@.len(),
            r.active_user_count == active_users(users@, users@.len() as int),
            r.inactive_user_count == users@.len() - active_users(users@, users@.len() as int),
            r.blocked_user_count == blocked_users(users@, users@.len() as int, now),
            r.revoked_session_count == revoked_sessions(sessions@, sessions@.len() as int),
            r.active_session_count == sessions@.len() - revoked_sessions(
                sessions@,
                sessions@.len() as int,
            ),
            r.os_types@.len() == 0,
            r.device_types@.len() == 0,
            r.browser_types@.len() == 0,
    {
        let mut active: usize = 0;
        let mut blocked: usize = 0;
        let mut i: usize = 0;
        while i < users.len()
            invariant
                i <= users@.len(),
                active == active_users(users@, i as int),
                blocked == blocked_users(users@, i as int, now),
            decreases users@.len() - i,
        {
            proof {
                lemma_count_bounded_users(users@, i as int, now);
            }
            let u = &users[i];
            if u.is_active {
                active = active + 1;
            }
            let is_blocked = match u.blocked_until {
                Some(t) => t > now,
                None => false,
            };
            if is_blocked {
                blocked = blocked + 1;
            }
            i = i + 1;
        }
        proof {
            lemma_count_bounded_users(users@, users@.len() as int, now);
        }
        let mut revoked: usize = 0;
        let mut j: usize = 0;
        while j < sessions.len()
            invariant
                j <= sessions@.len(),
                revoked == revoked_sessions(sessions@, j as int),
            decreases sessions@.len() - j,
        {
            proof {
                lemma_count_bounded_sessions(sessions@, j as int);
            }
            if sessions[j].is_revoked {
                revoked = revoked + 1;
            }
            j = j + 1;
        }
        proof {
            lemma_count_bounded_sessions(sessions@, sessions@.len() as int);
        }
        OverviewResponse {
            user_count: users.len(),
            active_user_count: active,
            inactive_user_count: users.len() - active,
            blocked_user_count: blocked,
            revoked_session_count: revoked,
            active_session_count: sessions.len() - revoked,
            os_types: Vec::new(),
            device_types: Vec::new(),
            browser_types: Vec::new(),
        }
    }
}

} // verus!
