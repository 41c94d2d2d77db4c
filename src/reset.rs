use vstd::prelude::*;
use crate::error::Error;
use crate::ids::new_id;
use crate::crypto::opened_text;
use vstd::utf8::encode_utf8;

verus! {

/// Milliseconds a password reset link stays valid: 10 minutes.
pub const RESET_TTL_MS: i64 = 600_000;

/// Milliseconds an email verification link stays valid: 24 hours.
pub const VERIFICATION_TTL_MS: i64 = 86_400_000;

/// A single-use password reset link. `email` is encrypted under the user's data key.
/// Times are milliseconds since the Unix epoch.
#[derive(Clone, Debug)]
pub struct ForgetPasswordRequest {
    pub id: String,
    pub email: String,
    pub is_used: bool,
    pub valid_till: i64,
    pub created_at: i64,
    pub updated_at: i64,
}

pub struct ResetView {
    pub id: Seq<char>,
    pub email: Seq<char>,
    pub is_used: bool,
    pub valid_till: i64,
    pub created_at: i64,
    pub updated_at: i64,
}

impl View for ForgetPasswordRequest {
    type V = ResetView;

    open spec fn view(&self) -> ResetView {
        ResetView {
            id: self.id@,
            email: self.email@,
            is_used: self.is_used,
            valid_till: self.valid_till,
            created_at: self.created_at,
            updated_at: self.updated_at,
        }
    }
}

/// Why a reset link is refused at `now`, if it is: already used, or past its validity.
pub enum ResetRefusal {
    Used,
    NoEmail,
    Expired,
}

pub open spec fn reset_refusal(r: ResetView, now: i64) -> Option<ResetRefusal> {
    if r.is_used {
        Some(ResetRefusal::Used)
    } else if r.email.len() == 0 {
        Some(ResetRefusal::NoEmail)
    } else if r.valid_till < now {
        Some(ResetRefusal::Expired)
    } else {
        None
    }
}

impl ForgetPasswordRequest {
    /// A fresh reset link for an encrypted email, valid for 10 minutes from `now`.
    pub fn new(email: &str, now: i64) -> (r: ForgetPasswordRequest)
        requires
            now <= i64::MAX - RESET_TTL_MS,
        ensures
            r.id@.len() == 36,
            r.email@ == email@,
            !r.is_used,
            r.valid_till == now + RESET_TTL_MS,
            r.created_at == now,
            r.updated_at == now,
    {
        ForgetPasswordRequest {
            id: new_id(),
            email: email.to_string(),
            is_used: false,
            valid_till: now + RESET_TTL_MS,
            created_at: now,
            updated_at: now,
        }
    }

    /// Whether the link found for an id may be used at `now`: it must exist, be unused, name an
    /// email and not be past its validity.
    pub fn check(found: Option<&ForgetPasswordRequest>, now: i64) -> (r: Result<(), Error>)
        ensures
            found is None ==> r matches Err(Error::ResetLinkNotFound { .. }),
            found matches Some(q) ==> match reset_refusal(q@, now) {
                None => r is Ok,
                Some(ResetRefusal::Used) => r matches Err(Error::ResetPasswordLinkExpired { .. }),
                Some(ResetRefusal::NoEmail) => r matches Err(Error::UserNotFound { .. }),
                Some(ResetRefusal::Expired) => r matches Err(Error::ResetPasswordLinkExpired { .. }),
            },
    {
        match found {
            None => Err(Error::ResetLinkNotFound { message: "Forget password request not found. Please request a new link.".to_string() }),
            Some(q) => {
                if q.is_used {
                    Err(Error::ResetPasswordLinkExpired { message: "The link has already been used. Please request a new link.".to_string() })
                } else if q.email.as_str().is_empty() {
                    Err(Error::UserNotFound { message: "Forget password request not found. Please request a new link.".to_string() })
                } else if q.valid_till < now {
                    Err(Error::ResetPasswordLinkExpired { message: "The link has expired. Please request a new link.".to_string() })
                } else {
                    Ok(())
                }
            },
        }
    }

    /// The outcome of the conditional update that spends a link: nothing matched means the
    /// link was spent or expired in the meantime.
    pub fn spent(matched: u64) -> (r: Result<(), Error>)
        ensures
            matched == 0 ==> r matches Err(Error::ResetPasswordLinkExpired { .. }),
            matched != 0 ==> r is Ok,
    {
        if matched == 0 {
            Err(Error::ResetPasswordLinkExpired { message: "The link has already been used. Please request a new link.".to_string() })
        } else {
            Ok(())
        }
    }
}

/// A pending email verification. `email` is encrypted under the user's data key; `uid` is plain.
/// Times are milliseconds since the Unix epoch.
#[derive(Clone, Debug)]
pub struct EmailVerificationRequest {
    pub req_id: String,
    pub uid: String,
    pub email: String,
    pub expires_at: i64,
    pub created_at: Option<i64>,
    pub updated_at: Option<i64>,
}

impl EmailVerificationRequest {
    /// A fresh verification link for a user, valid for 24 hours from `now`.
    pub fn new(uid: &str, email: &str, now: i64) -> (r: EmailVerificationRequest)
        requires
            now <= i64::MAX - VERIFICATION_TTL_MS,
        ensures
            r.req_id@.len() == 36,
            r.uid@ == uid@,
            r.email@ == email@,
            r.expires_at == now + VERIFICATION_TTL_MS,
            r.created_at == Some(now),
            r.updated_at == Some(now),
    {
        EmailVerificationRequest {
            req_id: new_id(),
            uid: uid.to_string(),
            email: email.to_string(),
            expires_at: now + VERIFICATION_TTL_MS,
            created_at: Some(now),
            updated_at: Some(now),
        }
    }

    /// Whether the verification found for an id may be confirmed at `now`.
    pub fn check(found: Option<&EmailVerificationRequest>, now: i64) -> (r: Result<(), Error>)
        ensures
            found is None ==> r matches Err(Error::UserNotFound { .. }),
            found matches Some(q) ==> if q.email@.len() == 0 {
                r matches Err(Error::UserNotFound { .. })
            } else if q.expires_at < now {
                r matches Err(Error::EmailVerificationLinkExpired { .. })
            } else {
                r is Ok
            },
    {
        match found {
            None => Err(Error::UserNotFound { message: "Email verification request not found. Please request a new link.".to_string() }),
            Some(q) => {
                if q.email.as_str().is_empty() {
                    Err(Error::UserNotFound { message: "Email verification request not found. Please request a new link.".to_string() })
                } else if q.expires_at < now {
                    Err(Error::EmailVerificationLinkExpired { message: "The link has expired. Please request a new link.".to_string() })
                } else {
                    Ok(())
                }
            },
        }
    }
}

/// Where an email confirmation stands.
#[derive(Debug)]
pub enum ConfirmationState {
    FindingRequest,
    MarkingUser { request: EmailVerificationRequest },
    DeletingRequest { request: EmailVerificationRequest },
    LoadingDek { request: EmailVerificationRequest },
    Done,
}

/// What the outside reports back during an email confirmation.
#[derive(Debug)]
pub enum ConfirmationEvent {
    /// The pending verification with the request's id, if any.
    RequestFound(Result<Option<EmailVerificationRequest>, Error>),
    /// How many users the change matched.
    UserMarked(Result<u64, Error>),
    /// Outcome of deleting the pending verification.
    RequestDeleted(Result<(), Error>),
    /// The user's key record, decrypted.
    DekLoaded(Result<crate::dek::Dek, Error>),
}

/// What the outside is asked to do next.
#[derive(Debug)]
pub enum ConfirmationAction {
    FindRequest { req_id: String },
    UpdateUser { uid: String, update: crate::accounts::UserUpdate },
    DeleteRequest { req_id: String },
    LoadDek { uid: String },
    /// The end: `notify`, when set, is the address a confirmation mail goes to.
    Finish { result: Result<String, Error>, notify: Option<String> },
}

/// Confirmation of an email through verification link `req_id` at time `now`.
pub struct ConfirmationRequest {
    pub req_id: String,
    pub now: i64,
}

impl ConfirmationRequest {
    /// First step: find the pending verification.
    pub fn start(&self) -> (r: (ConfirmationState, ConfirmationAction))
        ensures
            r.0 is FindingRequest,
            r.1 matches ConfirmationAction::FindRequest { req_id } && req_id@ == self.req_id@,
    {
        (ConfirmationState::FindingRequest, ConfirmationAction::FindRequest { req_id: self.req_id.clone() })
    }

    /// One step: an unknown or expired link is refused; otherwise the email is marked verified,
    /// the pending verification deleted, and a confirmation mailed to the decrypted address.
    pub fn step(&self, state: ConfirmationState, event: ConfirmationEvent) -> (r: (
        ConfirmationState,
        ConfirmationAction,
    ))
        ensures
            match (state, event) {
                (ConfirmationState::FindingRequest, ConfirmationEvent::RequestFound(Ok(None))) => {
                    r.0 is Done && (r.1 matches ConfirmationAction::Finish {
                        result: Err(Error::UserNotFound { .. }),
                        notify: None,
                    })
                },
                (ConfirmationState::FindingRequest, ConfirmationEvent::RequestFound(Ok(Some(q)))) => {
                    if q.email@.len() == 0 {
                        r.0 is Done && (r.1 matches ConfirmationAction::Finish {
                            result: Err(Error::UserNotFound { .. }),
                            notify: None,
                        })
                    } else if q.expires_at < self.now {
                        r.0 is Done && (r.1 matches ConfirmationAction::Finish {
                            result: Err(Error::EmailVerificationLinkExpired { .. }),
                            notify: None,
                        })
                    } else {
                        &&& (r.0 matches ConfirmationState::MarkingUser { request } && request == q)
                        &&& (r.1 matches ConfirmationAction::UpdateUser { uid, update } && uid@
                            == q.uid@ && update.email_verified == Some(true))
                    }
                },
                (ConfirmationState::MarkingUser { request }, ConfirmationEvent::UserMarked(Ok(n))) => if n == 0 {
                    r.0 is Done && (r.1 matches ConfirmationAction::Finish {
                        result: Err(Error::UserNotFound { .. }),
                        notify: None,
                    })
                } else {
                    &&& (r.0 matches ConfirmationState::DeletingRequest { request: q } && q == request)
                    &&& (r.1 matches ConfirmationAction::DeleteRequest { req_id } && req_id@
                        == request.req_id@)
                },
                (ConfirmationState::DeletingRequest { request }, ConfirmationEvent::RequestDeleted(Ok(()))) => {
                    &&& (r.0 matches ConfirmationState::LoadingDek { request: q } && q == request)
                    &&& (r.1 matches ConfirmationAction::LoadDek { uid } && uid@ == request.uid@)
                },
                (ConfirmationState::LoadingDek { request }, ConfirmationEvent::DekLoaded(Ok(d))) => {
                    &&& r.0 is Done
                    &&& r.1 matches ConfirmationAction::Finish { result: Ok(id), notify }
                    &&& id@ == self.req_id@
                    &&& (notify matches Some(to) ==> opened_text(request.email@, encode_utf8(d.dek@))
                        == Some(to@))
                },
                (_, ConfirmationEvent::RequestFound(Err(e))) => r.0 is Done && r.1
                    == ConfirmationAction::Finish { result: Err(e), notify: None },
                (_, ConfirmationEvent::UserMarked(Err(e))) => r.0 is Done && r.1
                    == ConfirmationAction::Finish { result: Err(e), notify: None },
                (_, ConfirmationEvent::RequestDeleted(Err(e))) => r.0 is Done && r.1
                    == ConfirmationAction::Finish { result: Err(e), notify: None },
                (_, ConfirmationEvent::DekLoaded(Err(e))) => r.0 is Done && r.1
                    == ConfirmationAction::Finish { result: Err(e), notify: None },
                _ => r.0 is Done && (r.1 matches ConfirmationAction::Finish {
                    result: Err(Error::ServerError { .. }),
                    notify: None,
                }),
            },
    {
        match (state, event) {
            (ConfirmationState::FindingRequest, ConfirmationEvent::RequestFound(Ok(found))) => {
                match EmailVerificationRequest::check(found.as_ref(), self.now) {
                    Err(e) => (ConfirmationState::Done, ConfirmationAction::Finish { result: Err(e), notify: None }),
                    Ok(()) => match found {
                        Some(request) => {
                            let uid = request.uid.clone();
                            (
                                ConfirmationState::MarkingUser { request },
                                ConfirmationAction::UpdateUser {
                                    uid,
                                    update: crate::accounts::UserUpdate::email_verified_change(self.now),
                                },
                            )
                        },
                        None => (
                            ConfirmationState::Done,
                            ConfirmationAction::Finish {
                                result: Err(Error::UserNotFound { message: "Email verification request not found".to_string() }),
                                notify: None,
                            },
                        ),
                    },
                }
            },
            (ConfirmationState::MarkingUser { request }, ConfirmationEvent::UserMarked(Ok(n))) => {
                match crate::user::User::modified(n) {
                    Err(e) => (ConfirmationState::Done, ConfirmationAction::Finish { result: Err(e), notify: None }),
                    Ok(()) => {
                        let req_id = request.req_id.clone();
                        (ConfirmationState::DeletingRequest { request }, ConfirmationAction::DeleteRequest { req_id })
                    },
                }
            },
            (ConfirmationState::DeletingRequest { request }, ConfirmationEvent::RequestDeleted(Ok(()))) => {
                let uid = request.uid.clone();
                (ConfirmationState::LoadingDek { request }, ConfirmationAction::LoadDek { uid })
            },
            (ConfirmationState::LoadingDek { request }, ConfirmationEvent::DekLoaded(Ok(d))) => {
                let notify = match crate::crypto::Encryption::decrypt_data(request.email.as_str(), d.dek.as_str()) {
                    Ok(to) => Some(to),
                    Err(_) => None,
                };
                (ConfirmationState::Done, ConfirmationAction::Finish { result: Ok(self.req_id.clone()), notify })
            },
            (_, ConfirmationEvent::RequestFound(Err(e))) => (
                ConfirmationState::Done,
                ConfirmationAction::Finish { result: Err(e), notify: None },
            ),
            (_, ConfirmationEvent::UserMarked(Err(e))) => (
                ConfirmationState::Done,
                ConfirmationAction::Finish { result: Err(e), notify: None },
            ),
            (_, ConfirmationEvent::RequestDeleted(Err(e))) => (
                ConfirmationState::Done,
                ConfirmationAction::Finish { result: Err(e), notify: None },
            ),
            (_, ConfirmationEvent::DekLoaded(Err(e))) => (
                ConfirmationState::Done,
                ConfirmationAction::Finish { result: Err(e), notify: None },
            ),
            _ => (
                ConfirmationState::Done,
                ConfirmationAction::Finish {
                    result: Err(Error::ServerError { message: "unexpected event".to_string() }),
                    notify: None,
                },
            ),
        }
    }
}

} // verus!
