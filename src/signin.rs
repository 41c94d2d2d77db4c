use vstd::prelude::*;
use vstd::utf8::encode_utf8;
use crate::accounts::UserUpdate;
use crate::auth::{Auth, SignInOrSignUpResponse};
use crate::dek::Dek;
use crate::error::Error;
use crate::password::credential_matches;
use crate::session::{seal_session, Session};
use crate::user::{lockout_ms, sealable, User};
use crate::crypto::key_parts;

verus! {

/// A sign-in at time `now`, in milliseconds since the Unix epoch.
pub struct SignInRequest {
    pub email: String,
    pub password: String,
    pub user_agent: String,
    pub now: i64,
}

/// Where a sign-in stands.
#[derive(Debug)]
pub enum SignInState {
    LoadingUser,
    Minting { user: User, dek: String },
    StoringSession { user: User, dek: String, session: Session },
    ResettingCounter { user: User, dek: String, session: Session },
    Counting { uid: String },
    ReadingCounter { uid: String },
    Locking,
    Done,
}

/// What the outside reports back during a sign-in.
#[derive(Debug)]
pub enum SignInEvent {
    /// The user, decrypted, with its key record.
    UserLoaded(Result<(User, Dek), Error>),
    /// A newly signed ID token and refresh token.
    TokensMinted(Result<(String, String), Error>),
    /// Outcome of storing the new session.
    SessionStored(Result<(), Error>),
    /// How many users the counter reset matched.
    CounterReset(Result<u64, Error>),
    /// How many users the counter increment matched.
    CounterIncremented(Result<u64, Error>),
    /// The user, decrypted, read back after the increment.
    CounterRead(Result<User, Error>),
    /// How many users the lockout matched.
    LockoutStored(Result<u64, Error>),
}

/// What the outside is asked to do next.
#[derive(Debug)]
pub enum SignInAction {
    LoadUser { email: String },
    MintTokens { user: User },
    /// Store this session, already encrypted under the user's data key.
    StoreSession { session: Session },
    UpdateUser { uid: String, update: UserUpdate },
    IncrementCounter { uid: String },
    ReadUser { uid: String },
    /// Warn the account holder by mail, then write the lockout.
    LockUser { uid: String, update: UserUpdate, name: String, email: String },
    Finish { result: Result<SignInOrSignUpResponse, Error> },
}

impl SignInRequest {
    /// First step: load the user by email.
    pub fn start(&self) -> (r: (SignInState, SignInAction))
        ensures
            r.0 is LoadingUser,
            r.1 matches SignInAction::LoadUser { email } && email@ == self.email@,
    {
        (SignInState::LoadingUser, SignInAction::LoadUser { email: self.email.clone() })
    }

    /// One step of a sign-in. A running lockout refuses it; a matching password opens a new
    /// session and clears the failed sign-in counter; a wrong one raises the counter and, at a
    /// threshold, warns the holder and starts a lockout, and the sign-in fails with
    /// `WrongCredentials` either way.
    pub fn step(&self, state: SignInState, event: SignInEvent) -> (r: (SignInState, SignInAction))
        requires
            self.now <= i64::MAX - 3_600_000,
        ensures
            match (state, event) {
                (SignInState::LoadingUser, SignInEvent::UserLoaded(Err(e))) => {
                    r.0 is Done && r.1 == SignInAction::Finish { result: Err(e) }
                },
                (SignInState::LoadingUser, SignInEvent::UserLoaded(Ok((u, d)))) => {
                    if u.blocked_until matches Some(t) && t > self.now {
                        r.0 is Done && (r.1 matches SignInAction::Finish {
                            result: Err(Error::UserBlocked { .. }),
                        })
                    } else if !credential_matches(self.password@, u.password@) {
                        &&& (r.0 matches SignInState::Counting { uid } && uid@ == u.uid@)
                        &&& (r.1 matches SignInAction::IncrementCounter { uid } && uid@ == u.uid@)
                    } else {
                        &&& r.0 == SignInState::Minting { user: u, dek: d.dek }
                        &&& (r.1 matches SignInAction::MintTokens { user } && user@ == u@)
                    }
                },
                (SignInState::Minting { .. }, SignInEvent::TokensMinted(Err(e))) => {
                    r.0 is Done && r.1 == SignInAction::Finish { result: Err(e) }
                },
                (SignInState::Minting { user, dek }, SignInEvent::TokensMinted(Ok((i, t)))) => {
                    ||| (r.0 matches SignInState::StoringSession { user: u2, dek: k2, session }
                        && u2 == user && k2 == dek && session.uid@ == user.uid@
                        && session.email@ == user.email@ && session.id_token@ == i@
                        && session.refresh_token@ == t@ && session.user_agent@ == self.user_agent@
                        && !session.is_revoked && session.created_at == self.now && (r.1 matches SignInAction::StoreSession {
                        session: stored,
                    } && seal_session(session@, encode_utf8(dek@)) == Some(stored@)))
                    ||| (r.0 is Done && (r.1 matches SignInAction::Finish { result: Err(_) }) && !(key_parts(
                        encode_utf8(dek@),
                    ) is Some && sealable(user.uid@) && sealable(user.email@) && sealable(i@)
                        && sealable(t@) && sealable(self.user_agent@)))
                },
                (SignInState::StoringSession { .. }, SignInEvent::SessionStored(Err(e))) => {
                    r.0 is Done && r.1 == SignInAction::Finish { result: Err(e) }
                },
                (SignInState::StoringSession { user, dek, session }, SignInEvent::SessionStored(Ok(()))) => {
                    &&& r.0 == SignInState::ResettingCounter { user, dek, session }
                    &&& (r.1 matches SignInAction::UpdateUser { uid, update } && uid@ == user.uid@
                        && update.failed_login_attempts == Some(0i32))
                },
                (SignInState::ResettingCounter { .. }, SignInEvent::CounterReset(Err(e))) => {
                    r.0 is Done && r.1 == SignInAction::Finish { result: Err(e) }
                },
                (SignInState::ResettingCounter { user, dek, session }, SignInEvent::CounterReset(Ok(n))) => {
                    &&& r.0 is Done
                    &&& if n == 0 {
                        r.1 matches SignInAction::Finish { result: Err(Error::UserNotFound { .. }) }
                    } else {
                        ||| (r.1 matches SignInAction::Finish { result: Ok(a) } && a.uid@ == user.uid@
                            && a.session.id_token@ == session.id_token@
                            && a.session.refresh_token@ == session.refresh_token@)
                        ||| (r.1 matches SignInAction::Finish { result: Err(Error::CryptoFailure { .. }) }
                            && !(key_parts(encode_utf8(dek@)) is Some && sealable(session.session_id@)))
                    }
                },
                (SignInState::Counting { .. }, SignInEvent::CounterIncremented(Err(e))) => {
                    r.0 is Done && r.1 == SignInAction::Finish { result: Err(e) }
                },
                (SignInState::Counting { uid }, SignInEvent::CounterIncremented(Ok(n))) => if n == 0 {
                    r.0 is Done && (r.1 matches SignInAction::Finish {
                        result: Err(Error::UserNotFound { .. }),
                    })
                } else {
                    &&& r.0 == SignInState::ReadingCounter { uid }
                    &&& (r.1 matches SignInAction::ReadUser { uid: id } && id@ == uid@)
                },
                (SignInState::ReadingCounter { .. }, SignInEvent::CounterRead(Err(e))) => {
                    r.0 is Done && r.1 == SignInAction::Finish { result: Err(e) }
                },
                (SignInState::ReadingCounter { uid }, SignInEvent::CounterRead(Ok(u))) => {
                    match lockout_ms(u.failed_login_attempts as int) {
                        Some(d) => {
                            &&& r.0 is Locking
                            &&& (r.1 matches SignInAction::LockUser { uid: id, update, name, email }
                                && id == uid && name@ == u.name@ && email@ == u.email@
                                && update.blocked_until == Some((self.now + d) as i64))
                        },
                        None => {
                            r.0 is Done && (r.1 matches SignInAction::Finish {
                                result: Err(Error::WrongCredentials { .. }),
                            })
                        },
                    }
                },
                (SignInState::Locking, SignInEvent::LockoutStored(Err(e))) => {
                    r.0 is Done && r.1 == SignInAction::Finish { result: Err(e) }
                },
                (SignInState::Locking, SignInEvent::LockoutStored(Ok(_))) => {
                    r.0 is Done && (r.1 matches SignInAction::Finish {
                        result: Err(Error::WrongCredentials { .. }),
                    })
                },
                _ => r.0 is Done && (r.1 matches SignInAction::Finish {
                    result: Err(Error::ServerError { .. }),
                }),
            },
    {
        match (state, event) {
            (SignInState::LoadingUser, SignInEvent::UserLoaded(Err(e))) => (
                SignInState::Done,
                SignInAction::Finish { result: Err(e) },
            ),
            (SignInState::LoadingUser, SignInEvent::UserLoaded(Ok((u, d)))) => {
                match Auth::check_credentials(&u, self.password.as_str(), self.now) {
                    Ok(()) => {
                        let user = u.clone_user();
                        (SignInState::Minting { user: u, dek: d.dek }, SignInAction::MintTokens { user })
                    },
                    Err(Error::WrongCredentials { .. }) => {
                        let uid = u.uid.clone();
                        (SignInState::Counting { uid: u.uid }, SignInAction::IncrementCounter { uid })
                    },
                    Err(e) => (SignInState::Done, SignInAction::Finish { result: Err(e) }),
                }
            },
            (SignInState::Minting { .. }, SignInEvent::TokensMinted(Err(e))) => (
                SignInState::Done,
                SignInAction::Finish { result: Err(e) },
            ),
            (SignInState::Minting { user, dek }, SignInEvent::TokensMinted(Ok((i, t)))) => {
                let session = Session::new(&user, self.user_agent.as_str(), i.as_str(), t.as_str(), self.now);
                proof {
                    crate::user::lemma_short_text_sealable(session.session_id@);
                }
                match session.encrypt(dek.as_str()) {
                    Ok(stored) => (
                        SignInState::StoringSession { user, dek, session },
                        SignInAction::StoreSession { session: stored },
                    ),
                    Err(e) => (SignInState::Done, SignInAction::Finish { result: Err(e) }),
                }
            },
            (SignInState::StoringSession { .. }, SignInEvent::SessionStored(Err(e))) => (
                SignInState::Done,
                SignInAction::Finish { result: Err(e) },
            ),
            (SignInState::StoringSession { user, dek, session }, SignInEvent::SessionStored(Ok(()))) => {
                let uid = user.uid.clone();
                (
                    SignInState::ResettingCounter { user, dek, session },
                    SignInAction::UpdateUser { uid, update: UserUpdate::failed_attempts_reset(self.now) },
                )
            },
            (SignInState::ResettingCounter { .. }, SignInEvent::CounterReset(Err(e))) => (
                SignInState::Done,
                SignInAction::Finish { result: Err(e) },
            ),
            (SignInState::ResettingCounter { user, dek, session }, SignInEvent::CounterReset(Ok(n))) => {
                let result = match User::modified(n) {
                    Err(e) => Err(e),
                    Ok(()) => Auth::response("Signin successful", &user, &session, dek.as_str()),
                };
                (SignInState::Done, SignInAction::Finish { result })
            },
            (SignInState::Counting { .. }, SignInEvent::CounterIncremented(Err(e))) => (
                SignInState::Done,
                SignInAction::Finish { result: Err(e) },
            ),
            (SignInState::Counting { uid }, SignInEvent::CounterIncremented(Ok(n))) => {
                match User::modified(n) {
                    Err(e) => (SignInState::Done, SignInAction::Finish { result: Err(e) }),
                    Ok(()) => {
                        let id = uid.clone();
                        (SignInState::ReadingCounter { uid }, SignInAction::ReadUser { uid: id })
                    },
                }
            },
            (SignInState::ReadingCounter { .. }, SignInEvent::CounterRead(Err(e))) => (
                SignInState::Done,
                SignInAction::Finish { result: Err(e) },
            ),
            (SignInState::ReadingCounter { uid }, SignInEvent::CounterRead(Ok(u))) => {
                let outcome = User::failed_attempt_outcome(u.failed_login_attempts, self.now);
                match UserUpdate::lockout(outcome, self.now) {
                    Some(update) => (
                        SignInState::Locking,
                        SignInAction::LockUser { uid, update, name: u.name, email: u.email },
                    ),
                    None => (
                        SignInState::Done,
                        SignInAction::Finish {
                            result: Err(Error::WrongCredentials { message: "Invalid credentials".to_string() }),
                        },
                    ),
                }
            },
            (SignInState::Locking, SignInEvent::LockoutStored(Err(e))) => (
                SignInState::Done,
                SignInAction::Finish { result: Err(e) },
            ),
            (SignInState::Locking, SignInEvent::LockoutStored(Ok(_))) => (
                SignInState::Done,
                SignInAction::Finish {
                    result: Err(Error::WrongCredentials { message: "Invalid credentials".to_string() }),
                },
            ),
            _ => (
                SignInState::Done,
                SignInAction::Finish {
                    result: Err(Error::ServerError { message: "unexpected event".to_string() }),
                },
            ),
        }
    }
}

} // verus!
