use vstd::prelude::*;
use crate::accounts::UserUpdate;
use crate::dek::Dek;
use crate::error::Error;
use crate::reset::{reset_refusal, ForgetPasswordRequest, ResetRefusal};
use crate::crypto::key_parts;
use crate::password::MAX_PASSWORD_BYTES;
use vstd::utf8::encode_utf8;
use crate::user::User;
use crate::validation::password_acceptable;

verus! {

/// The reset of a forgotten password through link `id`, at time `now` in milliseconds.
pub struct PasswordResetRequest {
    pub id: String,
    pub email: String,
    pub password: String,
    pub now: i64,
}

/// Where a password reset stands.
#[derive(Debug)]
pub enum PasswordResetState {
    FindingLink,
    LoadingUser { link: ForgetPasswordRequest },
    Spending { uid: String, name: String, update: UserUpdate },
    Updating { name: String },
    Done,
}

/// What the outside reports back during a password reset.
#[derive(Debug)]
pub enum PasswordResetEvent {
    /// The stored link with the request's id, if any.
    LinkFound(Result<Option<ForgetPasswordRequest>, Error>),
    /// The user, decrypted, with its key record.
    UserLoaded(Result<(User, Dek), Error>),
    /// How many links the conditional spend matched.
    LinkSpent(Result<u64, Error>),
    /// How many users the password change matched.
    UserUpdated(Result<u64, Error>),
}

/// What the outside is asked to do next.
#[derive(Debug)]
pub enum PasswordResetAction {
    FindLink { id: String },
    LoadUser { email: String },
    /// Mark the link used, on condition that it is unused and not expired at `now`.
    SpendLink { id: String, now: i64 },
    UpdateUser { uid: String, update: UserUpdate },
    /// The end: `notify`, when set, is the name a confirmation goes to at the request's email.
    Finish { result: Result<(), Error>, notify: Option<String> },
}

impl PasswordResetRequest {
    /// First step: find the link.
    pub fn start(&self) -> (r: (PasswordResetState, PasswordResetAction))
        ensures
            r.0 is FindingLink,
            r.1 matches PasswordResetAction::FindLink { id } && id@ == self.id@,
    {
        (PasswordResetState::FindingLink, PasswordResetAction::FindLink { id: self.id.clone() })
    }

    /// One step. A missing, used or expired link refuses the reset; a new password outside the
    /// policy is refused; otherwise the link is spent in one conditional update before the new
    /// credential is written, so a link serves at most once.
    pub fn step(&self, state: PasswordResetState, event: PasswordResetEvent) -> (r: (
        PasswordResetState,
        PasswordResetAction,
    ))
        ensures
            match (state, event) {
                (PasswordResetState::FindingLink, PasswordResetEvent::LinkFound(Ok(None))) => {
                    r.0 is Done && (r.1 matches PasswordResetAction::Finish {
                        result: Err(Error::ResetLinkNotFound { .. }),
                        notify: None,
                    })
                },
                (PasswordResetState::FindingLink, PasswordResetEvent::LinkFound(Ok(Some(link)))) => {
                    if reset_refusal(link@, self.now) matches Some(ResetRefusal::NoEmail) {
                        r.0 is Done && (r.1 matches PasswordResetAction::Finish {
                            result: Err(Error::UserNotFound { .. }),
                            notify: None,
                        })
                    } else if reset_refusal(link@, self.now) is Some {
                        r.0 is Done && (r.1 matches PasswordResetAction::Finish {
                            result: Err(Error::ResetPasswordLinkExpired { .. }),
                            notify: None,
                        })
                    } else {
                        &&& r.0 == PasswordResetState::LoadingUser { link }
                        &&& (r.1 matches PasswordResetAction::LoadUser { email } && email@
                            == self.email@)
                    }
                },
                (PasswordResetState::LoadingUser { .. }, PasswordResetEvent::UserLoaded(Ok((u, d)))) => {
                    if !password_acceptable(self.password@) {
                        r.0 is Done && (r.1 matches PasswordResetAction::Finish {
                            result: Err(Error::InvalidPassword { .. }),
                            notify: None,
                        })
                    } else {
                        ||| (r.0 matches PasswordResetState::Spending { uid, update, .. } && uid@
                            == u.uid@ && update.password is Some && (r.1 matches PasswordResetAction::SpendLink {
                            id,
                            now,
                        } && id@ == self.id@ && now == self.now))
                        ||| (r.0 is Done && (r.1 matches PasswordResetAction::Finish {
                            result: Err(_),
                            notify: None,
                        }) && !(key_parts(encode_utf8(d.dek@)) is Some && encode_utf8(self.password@).len()
                            <= MAX_PASSWORD_BYTES))
                    }
                },
                (PasswordResetState::Spending { uid, update, .. }, PasswordResetEvent::LinkSpent(Ok(n))) => {
                    if n == 0 {
                        r.0 is Done && (r.1 matches PasswordResetAction::Finish {
                            result: Err(Error::ResetPasswordLinkExpired { .. }),
                            notify: None,
                        })
                    } else {
                        &&& r.0 is Updating
                        &&& r.1 == PasswordResetAction::UpdateUser { uid, update }
                    }
                },
                (PasswordResetState::Updating { name }, PasswordResetEvent::UserUpdated(Ok(n))) => {
                    &&& r.0 is Done
                    &&& if n == 0 {
                        r.1 matches PasswordResetAction::Finish {
                            result: Err(Error::UserNotFound { .. }),
                            notify: None,
                        }
                    } else {
                        r.1 == PasswordResetAction::Finish { result: Ok(()), notify: Some(name) }
                    }
                },
                (_, PasswordResetEvent::LinkFound(Err(e))) => r.0 is Done && r.1
                    == PasswordResetAction::Finish { result: Err(e), notify: None },
                (_, PasswordResetEvent::UserLoaded(Err(e))) => r.0 is Done && r.1
                    == PasswordResetAction::Finish { result: Err(e), notify: None },
                (_, PasswordResetEvent::LinkSpent(Err(e))) => r.0 is Done && r.1
                    == PasswordResetAction::Finish { result: Err(e), notify: None },
                (_, PasswordResetEvent::UserUpdated(Err(e))) => r.0 is Done && r.1
                    == PasswordResetAction::Finish { result: Err(e), notify: None },
                _ => r.0 is Done && (r.1 matches PasswordResetAction::Finish {
                    result: Err(Error::ServerError { .. }),
                    notify: None,
                }),
            },
    {
        match (state, event) {
            (PasswordResetState::FindingLink, PasswordResetEvent::LinkFound(Ok(found))) => {
                match ForgetPasswordRequest::check(found.as_ref(), self.now) {
                    Err(e) => (PasswordResetState::Done, PasswordResetAction::Finish { result: Err(e), notify: None }),
                    Ok(()) => match found {
                        Some(link) => (
                            PasswordResetState::LoadingUser { link },
                            PasswordResetAction::LoadUser { email: self.email.clone() },
                        ),
                        None => (
                            PasswordResetState::Done,
                            PasswordResetAction::Finish {
                                result: Err(Error::ResetLinkNotFound { message: "Reset link not found".to_string() }),
                                notify: None,
                            },
                        ),
                    },
                }
            },
            (PasswordResetState::LoadingUser { .. }, PasswordResetEvent::UserLoaded(Ok((u, d)))) => {
                match UserUpdate::password_change(self.password.as_str(), d.dek.as_str(), self.now) {
                    Ok(update) => (
                        PasswordResetState::Spending { uid: u.uid, name: u.name, update },
                        PasswordResetAction::SpendLink { id: self.id.clone(), now: self.now },
                    ),
                    Err(e) => (PasswordResetState::Done, PasswordResetAction::Finish { result: Err(e), notify: None }),
                }
            },
            (PasswordResetState::Spending { uid, name, update }, PasswordResetEvent::LinkSpent(Ok(n))) => {
                match ForgetPasswordRequest::spent(n) {
                    Err(e) => (PasswordResetState::Done, PasswordResetAction::Finish { result: Err(e), notify: None }),
                    Ok(()) => (PasswordResetState::Updating { name }, PasswordResetAction::UpdateUser { uid, update }),
                }
            },
            (PasswordResetState::Updating { name }, PasswordResetEvent::UserUpdated(Ok(n))) => {
                match User::modified(n) {
                    Err(e) => (PasswordResetState::Done, PasswordResetAction::Finish { result: Err(e), notify: None }),
                    Ok(()) => (PasswordResetState::Done, PasswordResetAction::Finish { result: Ok(()), notify: Some(name) }),
                }
            },
            (_, PasswordResetEvent::LinkFound(Err(e))) => (
                PasswordResetState::Done,
                PasswordResetAction::Finish { result: Err(e), notify: None },
            ),
            (_, PasswordResetEvent::UserLoaded(Err(e))) => (
                PasswordResetState::Done,
                PasswordResetAction::Finish { result: Err(e), notify: None },
            ),
            (_, PasswordResetEvent::LinkSpent(Err(e))) => (
                PasswordResetState::Done,
                PasswordResetAction::Finish { result: Err(e), notify: None },
            ),
            (_, PasswordResetEvent::UserUpdated(Err(e))) => (
                PasswordResetState::Done,
                PasswordResetAction::Finish { result: Err(e), notify: None },
            ),
            _ => (
                PasswordResetState::Done,
                PasswordResetAction::Finish {
                    result: Err(Error::ServerError { message: "unexpected event".to_string() }),
                    notify: None,
                },
            ),
        }
    }
}

} // verus!
