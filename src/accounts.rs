use vstd::prelude::*;
use vstd::string::StringSliceAdditionalSpecFns;
use vstd::utf8::encode_utf8;
use crate::crypto::{key_parts, sealed_text, Encryption};
use crate::dek::{seal_dek, Dek, DekView};
use crate::error::Error;
use crate::password::{
    credential_matches, credential_of, salt_and_hash_password, verify_password_hash, MAX_PASSWORD_BYTES,
};
use crate::session::{seal_session, SessionView};
use crate::user::{seal_user, sealable, FailedAttemptOutcome, User, UserView};
use crate::validation::{password_acceptable, Validation};

verus! {

/// A change to a stored user: each field that is set is written. Text fields hold ciphertext.
#[derive(Clone, Debug)]
pub struct UserUpdate {
    pub name: Option<String>,
    pub role: Option<String>,
    pub password: Option<String>,
    pub is_active: Option<bool>,
    pub email_verified: Option<bool>,
    pub failed_login_attempts: Option<i32>,
    pub blocked_until: Option<i64>,
    pub updated_at: Option<i64>,
}

/// A change that writes only the modification time.
pub open spec fn touches_only(u: UserUpdate, now: i64) -> bool {
    &&& u.name is None && u.role is None && u.password is None && u.is_active is None
    &&& u.email_verified is None && u.failed_login_attempts is None && u.blocked_until is None
    &&& u.updated_at == Some(now)
}

fn touch(now: i64) -> (r: UserUpdate)
    ensures
        touches_only(r, now),
{
    UserUpdate {
        name: None,
        role: None,
        password: None,
        is_active: None,
        email_verified: None,
        failed_login_attempts: None,
        blocked_until: None,
        updated_at: Some(now),
    }
}

/// What an account operation removes for a user: the user by plain uid, the key record by uid
/// encrypted under the service key, the sessions by uid encrypted under the user's data key.
#[derive(Clone, Debug)]
pub struct DeletionPlan {
    pub user_uid: String,
    pub dek_uid: String,
    pub session_uid: String,
}

impl UserUpdate {
    /// Sets a new role, encrypted under the user's data key.
    pub fn role_change(role: &str, dek: &str, now: i64) -> (r: Result<UserUpdate, Error>)
        ensures
            r matches Ok(u) ==> sealed_text(role@, dek.spec_bytes()) == Some(u.role->0@)
                && u.role is Some && touches_only(UserUpdate { role: None, ..u }, now),
            key_parts(dek.spec_bytes()) is None ==> r is Err,
            key_parts(dek.spec_bytes()) is Some && sealable(role@) ==> r is Ok,
    {
        let c = Encryption::encrypt_data(role, dek)?;
        Ok(UserUpdate { role: Some(c), ..touch(now) })
    }

    /// Sets a new display name, encrypted under the user's data key.
    pub fn name_change(name: &str, dek: &str, now: i64) -> (r: Result<UserUpdate, Error>)
        ensures
            r matches Ok(u) ==> sealed_text(name@, dek.spec_bytes()) == Some(u.name->0@)
                && u.name is Some && touches_only(UserUpdate { name: None, ..u }, now),
            key_parts(dek.spec_bytes()) is None ==> r is Err,
            key_parts(dek.spec_bytes()) is Some && sealable(name@) ==> r is Ok,
    {
        let c = Encryption::encrypt_data(name, dek)?;
        Ok(UserUpdate { name: Some(c), ..touch(now) })
    }

    /// Turns the account on or off.
    pub fn activation_change(is_active: bool, now: i64) -> (r: UserUpdate)
        ensures
            r.is_active == Some(is_active),
            touches_only(UserUpdate { is_active: None, ..r }, now),
    {
        UserUpdate { is_active: Some(is_active), ..touch(now) }
    }

    /// Marks the email as verified.
    pub fn email_verified_change(now: i64) -> (r: UserUpdate)
        ensures
            r.email_verified == Some(true),
            touches_only(UserUpdate { email_verified: None, ..r }, now),
    {
        UserUpdate { email_verified: Some(true), ..touch(now) }
    }

    /// Clears the failed sign-in counter.
    pub fn failed_attempts_reset(now: i64) -> (r: UserUpdate)
        ensures
            r.failed_login_attempts == Some(0i32),
            touches_only(UserUpdate { failed_login_attempts: None, ..r }, now),
    {
        UserUpdate { failed_login_attempts: Some(0), ..touch(now) }
    }

    /// Starts the lockout that a failed sign-in calls for; `None` when it calls for none.
    pub fn lockout(outcome: FailedAttemptOutcome, now: i64) -> (r: Option<UserUpdate>)
        ensures
            match outcome.blocked_until {
                Some(t) => r matches Some(u) && u.blocked_until == Some(t) && touches_only(
                    UserUpdate { blocked_until: None, ..u },
                    now,
                ),
                None => r is None,
            },
    {
        match outcome.blocked_until {
            Some(t) => Some(UserUpdate { blocked_until: Some(t), ..touch(now) }),
            None => None,
        }
    }

    /// Sets a new password: it must meet the policy; it is hashed under a fresh salt and the
    /// credential encrypted under the user's data key.
    pub fn password_change(new_password: &str, dek: &str, now: i64) -> (r: Result<UserUpdate, Error>)
        ensures
            !password_acceptable(new_password@) ==> r matches Err(Error::InvalidPassword { .. }),
            password_acceptable(new_password@) ==> !(r matches Err(Error::InvalidPassword { .. })),
            password_acceptable(new_password@) && key_parts(dek.spec_bytes()) is Some && encode_utf8(
                new_password@,
            ).len() <= MAX_PASSWORD_BYTES ==> r is Ok,
            r matches Ok(u) ==> u.password is Some && touches_only(UserUpdate { password: None, ..u }, now)
                && exists|salt: Seq<char>, c: Seq<char>|
                    #![trigger credential_of(new_password@, salt), sealed_text(c, dek.spec_bytes())]
                    credential_of(new_password@, salt) == Some(c) && sealed_text(c, dek.spec_bytes())
                        == Some(u.password->0@),
    {
        if !Validation::password(new_password) {
            return Err(Error::InvalidPassword { message: "Password does not meet the policy".to_string() });
        }
        let hashed = salt_and_hash_password(new_password)?;
        let c = Encryption::encrypt_data(hashed.as_str(), dek)?;
        Ok(UserUpdate { password: Some(c), ..touch(now) })
    }
}

impl User {
    /// The outcome of a change addressed to one user: none changed means no such user.
    pub fn modified(count: u64) -> (r: Result<(), Error>)
        ensures
            count == 0 ==> r matches Err(Error::UserNotFound { .. }),
            count != 0 ==> r is Ok,
    {
        if count == 0 {
            Err(Error::UserNotFound { message: "User not found".to_string() })
        } else {
            Ok(())
        }
    }

    /// A password change: the old password must match this (decrypted) user's credential; the
    /// new one then replaces it.
    pub fn change_password(&self, old_password: &str, new_password: &str, dek: &str, now: i64) -> (r: Result<
        UserUpdate,
        Error,
    >)
        ensures
            !credential_matches(old_password@, self.password@) ==> r matches Err(
                Error::InvalidPassword { .. },
            ),
            !password_acceptable(new_password@) ==> r matches Err(Error::InvalidPassword { .. }),
            credential_matches(old_password@, self.password@) && password_acceptable(new_password@)
                ==> !(r matches Err(Error::InvalidPassword { .. })),
            credential_matches(old_password@, self.password@) && password_acceptable(new_password@)
                && key_parts(dek.spec_bytes()) is Some && encode_utf8(new_password@).len()
                <= MAX_PASSWORD_BYTES ==> r is Ok,
            r matches Ok(u) ==> credential_matches(old_password@, self.password@) && u.password is Some
                && touches_only(UserUpdate { password: None, ..u }, now)
                && exists|salt: Seq<char>, c: Seq<char>|
                    #![trigger credential_of(new_password@, salt), sealed_text(c, dek.spec_bytes())]
                    credential_of(new_password@, salt) == Some(c) && sealed_text(c, dek.spec_bytes())
                        == Some(u.password->0@),
    {
        if !verify_password_hash(old_password, self.password.as_str()) {
            return Err(Error::InvalidPassword { message: "Old password does not match".to_string() });
        }
        UserUpdate::password_change(new_password, dek, now)
    }

    /// What deleting the user of a (decrypted) key record removes.
    pub fn deletion_plan(record: &Dek, kek: &str) -> (r: Result<DeletionPlan, Error>)
        ensures
            r matches Ok(p) ==> p.user_uid@ == record.uid@ && sealed_text(
                record.uid@,
                kek.spec_bytes(),
            ) == Some(p.dek_uid@) && sealed_text(record.uid@, encode_utf8(record.dek@)) == Some(
                p.session_uid@,
            ),
            key_parts(kek.spec_bytes()) is None ==> r is Err,
            key_parts(kek.spec_bytes()) is Some && key_parts(encode_utf8(record.dek@)) is Some
                && sealable(record.uid@) ==> r is Ok,
    {
        let dek_uid = Encryption::encrypt_data(record.uid.as_str(), kek)?;
        let session_uid = Encryption::encrypt_data(record.uid.as_str(), record.dek.as_str())?;
        Ok(DeletionPlan { user_uid: record.uid.clone(), dek_uid, session_uid })
    }

    /// The outcome of a deletion from the counts removed: no user means no such user; a user
    /// without a key record is reported after the user is gone.
    pub fn deletion_outcome(uid: &str, users_deleted: u64, deks_deleted: u64) -> (r: Result<String, Error>)
        ensures
            users_deleted == 0 ==> r matches Err(Error::UserNotFound { .. }),
            users_deleted != 0 && deks_deleted == 0 ==> r matches Err(Error::KeyNotFound { .. }),
            users_deleted != 0 && deks_deleted != 0 ==> r is Ok && r->Ok_0@ == uid@,
    {
        if users_deleted == 0 {
            Err(Error::UserNotFound { message: "User not found".to_string() })
        } else if deks_deleted == 0 {
            Err(Error::KeyNotFound { message: "DEK not found".to_string() })
        } else {
            Ok(uid.to_string())
        }
    }
}

/// The users collection after removing the users with a given uid.
pub open spec fn users_without(docs: Seq<UserView>, uid: Seq<char>) -> Seq<UserView> {
    docs.filter(|d: UserView| d.uid != uid)
}

/// The key records after removing those with a given stored uid.
pub open spec fn deks_without(docs: Seq<DekView>, uid: Seq<char>) -> Seq<DekView> {
    docs.filter(|d: DekView| d.uid != uid)
}

/// The sessions after removing those with a given stored uid.
pub open spec fn sessions_without(docs: Seq<SessionView>, uid: Seq<char>) -> Seq<SessionView> {
    docs.filter(|d: SessionView| d.uid != uid)
}

/// Sign-up followed by deletion leaves nothing of the user: the stored user, key record and
/// session that sign-up writes are exactly what the deletion plan's queries select, and once
/// they are deleted no user, key record or session of that uid remains, whatever else is stored.
pub proof fn lemma_sign_up_then_delete(
    users: Seq<UserView>,
    deks: Seq<DekView>,
    sessions: Seq<SessionView>,
    u: UserView,
    d: DekView,
    s: SessionView,
    kek: Seq<u8>,
)
    requires
        d.uid == u.uid,
        s.uid == u.uid,
        seal_user(u, encode_utf8(d.dek)) is Some,
        seal_dek(d, kek) is Some,
        seal_session(s, encode_utf8(d.dek)) is Some,
    ensures
        ({
            let dek_uid = sealed_text(u.uid, kek)->0;
            let session_uid = sealed_text(u.uid, encode_utf8(d.dek))->0;
            &&& seal_user(u, encode_utf8(d.dek))->0.uid == u.uid
            &&& seal_dek(d, kek)->0.uid == dek_uid
            &&& seal_session(s, encode_utf8(d.dek))->0.uid == session_uid
            &&& forall|x: UserView|
                users_without(users.push(seal_user(u, encode_utf8(d.dek))->0), u.uid).contains(x)
                    ==> x.uid != u.uid
            &&& forall|x: DekView|
                deks_without(deks.push(seal_dek(d, kek)->0), dek_uid).contains(x) ==> x.uid
                    != dek_uid
            &&& forall|x: SessionView|
                sessions_without(sessions.push(seal_session(s, encode_utf8(d.dek))->0), session_uid).contains(
                    x,
                ) ==> x.uid != session_uid
        }),
{
    broadcast use vstd::seq_lib::group_filter_ensures;

    let dek_uid = sealed_text(u.uid, kek)->0;
    let session_uid = sealed_text(u.uid, encode_utf8(d.dek))->0;
    let us = users.push(seal_user(u, encode_utf8(d.dek))->0);
    let ds = deks.push(seal_dek(d, kek)->0);
    let ss = sessions.push(seal_session(s, encode_utf8(d.dek))->0);
    assert forall|x: UserView| users_without(us, u.uid).contains(x) implies x.uid != u.uid by {
        let f = |e: UserView| e.uid != u.uid;
        let i = choose|i: int| 0 <= i < us.filter(f).len() && us.filter(f)[i] == x;
        assert(f(us.filter(f)[i]));
    }
    assert forall|x: DekView| deks_without(ds, dek_uid).contains(x) implies x.uid != dek_uid by {
        let f = |e: DekView| e.uid != dek_uid;
        let i = choose|i: int| 0 <= i < ds.filter(f).len() && ds.filter(f)[i] == x;
        assert(f(ds.filter(f)[i]));
    }
    assert forall|x: SessionView| sessions_without(ss, session_uid).contains(x) implies x.uid
        != session_uid by {
        let f = |e: SessionView| e.uid != session_uid;
        let i = choose|i: int| 0 <= i < ss.filter(f).len() && ss.filter(f)[i] == x;
        assert(f(ss.filter(f)[i]));
    }
}

/// Where an account deletion stands.
#[derive(Debug)]
pub enum DeletionState {
    FindingDek,
    DeletingUser { plan: DeletionPlan },
    DeletingDek { plan: DeletionPlan },
    DeletingSessions { plan: DeletionPlan, deks_deleted: u64 },
    Done,
}

/// What the outside reports back during an account deletion.
#[derive(Debug)]
pub enum DeletionEvent {
    /// The user's key record, decrypted, as `Dek::from_found` gives it.
    DekFound(Result<Dek, Error>),
    /// How many users, key records or sessions a deletion removed.
    Deleted(Result<u64, Error>),
}

/// What the outside is asked to do next.
#[derive(Debug)]
pub enum DeletionAction {
    FindDek { email: String },
    DeleteUser { uid: String },
    DeleteDek { uid: String },
    DeleteSessions { uid: String },
    Finish { result: Result<String, Error> },
}

/// Deletion of the account registered under an email, with the service key `kek`.
pub struct DeletionRequest {
    pub email: String,
    pub kek: String,
}

impl DeletionRequest {
    /// First step: find the key record by email.
    pub fn start(&self) -> (r: (DeletionState, DeletionAction))
        ensures
            r.0 is FindingDek,
            r.1 matches DeletionAction::FindDek { email } && email@ == self.email@,
    {
        (DeletionState::FindingDek, DeletionAction::FindDek { email: self.email.clone() })
    }

    /// One step: the user goes first (none means no such user, and nothing else is touched),
    /// then the key record, then every session; a missing key record is reported once all of
    /// that is done.
    pub fn step(&self, state: DeletionState, event: DeletionEvent) -> (r: (DeletionState, DeletionAction))
        ensures
            match (state, event) {
                (DeletionState::FindingDek, DeletionEvent::DekFound(Ok(d))) => {
                    ||| (r.0 matches DeletionState::DeletingUser { plan } && plan.user_uid@ == d.uid@
                        && sealed_text(d.uid@, encode_utf8(self.kek@)) == Some(plan.dek_uid@)
                        && sealed_text(d.uid@, encode_utf8(d.dek@)) == Some(plan.session_uid@) && (r.1 matches DeletionAction::DeleteUser {
                        uid,
                    } && uid@ == d.uid@))
                    ||| (r.0 is Done && (r.1 matches DeletionAction::Finish { result: Err(_) })
                        && !(key_parts(encode_utf8(self.kek@)) is Some && key_parts(encode_utf8(d.dek@))
                        is Some && sealable(d.uid@)))
                },
                (DeletionState::DeletingUser { plan }, DeletionEvent::Deleted(Ok(n))) => if n == 0 {
                    r.0 is Done && (r.1 matches DeletionAction::Finish {
                        result: Err(Error::UserNotFound { .. }),
                    })
                } else {
                    &&& r.0 == DeletionState::DeletingDek { plan }
                    &&& (r.1 matches DeletionAction::DeleteDek { uid } && uid@ == plan.dek_uid@)
                },
                (DeletionState::DeletingDek { plan }, DeletionEvent::Deleted(Ok(n))) => {
                    &&& r.0 == DeletionState::DeletingSessions { plan, deks_deleted: n }
                    &&& (r.1 matches DeletionAction::DeleteSessions { uid } && uid@ == plan.session_uid@)
                },
                (DeletionState::DeletingSessions { plan, deks_deleted }, DeletionEvent::Deleted(Ok(_))) => {
                    &&& r.0 is Done
                    &&& if deks_deleted == 0 {
                        r.1 matches DeletionAction::Finish { result: Err(Error::KeyNotFound { .. }) }
                    } else {
                        r.1 matches DeletionAction::Finish { result: Ok(uid) } && uid@ == plan.user_uid@
                    }
                },
                (_, DeletionEvent::DekFound(Err(e))) => r.0 is Done && r.1 == DeletionAction::Finish {
                    result: Err(e),
                },
                (_, DeletionEvent::Deleted(Err(e))) => r.0 is Done && r.1 == DeletionAction::Finish {
                    result: Err(e),
                },
                _ => r.0 is Done && (r.1 matches DeletionAction::Finish {
                    result: Err(Error::ServerError { .. }),
                }),
            },
    {
        match (state, event) {
            (DeletionState::FindingDek, DeletionEvent::DekFound(Ok(d))) => {
                match User::deletion_plan(&d, self.kek.as_str()) {
                    Ok(plan) => {
                        let uid = plan.user_uid.clone();
                        (DeletionState::DeletingUser { plan }, DeletionAction::DeleteUser { uid })
                    },
                    Err(e) => (DeletionState::Done, DeletionAction::Finish { result: Err(e) }),
                }
            },
            (DeletionState::DeletingUser { plan }, DeletionEvent::Deleted(Ok(n))) => {
                match User::modified(n) {
                    Err(e) => (DeletionState::Done, DeletionAction::Finish { result: Err(e) }),
                    Ok(()) => {
                        let uid = plan.dek_uid.clone();
                        (DeletionState::DeletingDek { plan }, DeletionAction::DeleteDek { uid })
                    },
                }
            },
            (DeletionState::DeletingDek { plan }, DeletionEvent::Deleted(Ok(n))) => {
                let uid = plan.session_uid.clone();
                (DeletionState::DeletingSessions { plan, deks_deleted: n }, DeletionAction::DeleteSessions { uid })
            },
            (DeletionState::DeletingSessions { plan, deks_deleted }, DeletionEvent::Deleted(Ok(_))) => {
                let result = User::deletion_outcome(plan.user_uid.as_str(), 1, deks_deleted);
                (DeletionState::Done, DeletionAction::Finish { result })
            },
            (_, DeletionEvent::DekFound(Err(e))) => (DeletionState::Done, DeletionAction::Finish { result: Err(e) }),
            (_, DeletionEvent::Deleted(Err(e))) => (DeletionState::Done, DeletionAction::Finish { result: Err(e) }),
            _ => (
                DeletionState::Done,
                DeletionAction::Finish {
                    result: Err(Error::ServerError { message: "unexpected event".to_string() }),
                },
            ),
        }
    }
}

} // verus!
