use vstd::prelude::*;
use vstd::utf8::encode_utf8;
use crate::auth::{Auth, NewAccount, SignInOrSignUpResponse, SignUpPayload};
use crate::crypto::{is_key_string, key_parts};
use crate::password::MAX_PASSWORD_BYTES;
use crate::user::sealable;
use crate::validation::{form_email_shape, password_acceptable};
use crate::dek::{seal_dek, Dek, DekView};
use crate::error::Error;
use crate::requests::ensure_email_free;
use crate::session::{seal_session, Session};
use crate::user::{seal_user, User};

verus! {

/// A sign-up at time `now`, in milliseconds since the Unix epoch, under the service key `kek`.
pub struct SignUpRequest {
    pub payload: SignUpPayload,
    pub user_agent: String,
    pub kek: String,
    pub now: i64,
}

/// Where a sign-up stands.
#[derive(Debug)]
pub enum SignUpState {
    CheckingEmail,
    StoringUser { account: NewAccount },
    StoringDek { account: NewAccount },
    Minting { account: NewAccount },
    StoringSession { account: NewAccount, session: Session },
    Done,
}

/// What the outside reports back during a sign-up.
#[derive(Debug)]
pub enum SignUpEvent {
    /// The key record indexed under the email, as `Dek::from_found` gives it.
    EmailLooked(Result<Dek, Error>),
    UserStored(Result<(), Error>),
    DekStored(Result<(), Error>),
    /// A newly signed ID token and refresh token.
    TokensMinted(Result<(String, String), Error>),
    SessionStored(Result<(), Error>),
}

/// What the outside is asked to do next. Records to store come encrypted.
#[derive(Debug)]
pub enum SignUpAction {
    LookupEmail { email: String },
    StoreUser { user: User },
    StoreDek { record: Dek },
    MintTokens { user: User },
    StoreSession { session: Session },
    Finish { result: Result<SignInOrSignUpResponse, Error> },
}

/// The key record sign-up writes for an account, before encryption.
pub open spec fn account_dek(a: NewAccount, now: i64) -> DekView {
    DekView { uid: a.user.uid@, email: a.user.email@, dek: a.dek@, created_at: now, updated_at: now }
}

impl SignUpRequest {
    /// First step: check the request, then look for an account under the email.
    pub fn start(&self) -> (r: (SignUpState, SignUpAction))
        ensures
            if self.payload.name@.len() == 0 || self.payload.email@.len() == 0
                || self.payload.role@.len() == 0 || self.payload.password@.len() == 0 {
                r.0 is Done && (r.1 matches SignUpAction::Finish {
                    result: Err(Error::InvalidPayload { .. }),
                })
            } else if !form_email_shape(self.payload.email@) {
                r.0 is Done && (r.1 matches SignUpAction::Finish { result: Err(Error::InvalidEmail { .. }) })
            } else if !password_acceptable(self.payload.password@) {
                r.0 is Done && (r.1 matches SignUpAction::Finish {
                    result: Err(Error::InvalidPassword { .. }),
                })
            } else if self.user_agent@.len() == 0 {
                r.0 is Done && (r.1 matches SignUpAction::Finish {
                    result: Err(Error::InvalidUserAgent { .. }),
                })
            } else {
                r.0 is CheckingEmail && (r.1 matches SignUpAction::LookupEmail { email } && email@
                    == self.payload.email@)
            },
    {
        match Auth::validate_sign_up(&self.payload, self.user_agent.as_str()) {
            Err(e) => (SignUpState::Done, SignUpAction::Finish { result: Err(e) }),
            Ok(()) => (
                SignUpState::CheckingEmail,
                SignUpAction::LookupEmail { email: self.payload.email.clone() },
            ),
        }
    }

    /// One step of a sign-up. A taken email refuses it; otherwise the user is stored encrypted
    /// under a fresh data key, the key record under the service key, and a first session under
    /// the data key, all with the same uid.
    pub fn step(&self, state: SignUpState, event: SignUpEvent) -> (r: (SignUpState, SignUpAction))
        ensures
            match (state, event) {
                (SignUpState::CheckingEmail, SignUpEvent::EmailLooked(Ok(_))) => {
                    r.0 is Done && (r.1 matches SignUpAction::Finish {
                        result: Err(Error::UserAlreadyExists { .. }),
                    })
                },
                (SignUpState::CheckingEmail, SignUpEvent::EmailLooked(Err(Error::KeyNotFound { .. }))) => {
                    ||| (r.0 matches SignUpState::StoringUser { account } && (r.1 matches SignUpAction::StoreUser {
                        user,
                    } && seal_user(account.user@, encode_utf8(account.dek@)) == Some(user@))
                        && account.user.email@ == self.payload.email@
                        && account.user.name@ == self.payload.name@
                        && account.user.role@ == self.payload.role@
                        && account.user.uid@.len() == 36 && is_key_string(account.dek@)
                        && key_parts(encode_utf8(account.dek@)) is Some)
                    ||| (r.0 is Done && (r.1 matches SignUpAction::Finish { result: Err(_) }) && !(
                    encode_utf8(self.payload.password@).len() <= MAX_PASSWORD_BYTES && sealable(
                        self.payload.name@,
                    ) && sealable(self.payload.email@) && sealable(self.payload.role@)))
                },
                (SignUpState::CheckingEmail, SignUpEvent::EmailLooked(Err(e))) => {
                    r.0 is Done && r.1 == SignUpAction::Finish { result: Err(e) }
                },
                (SignUpState::StoringUser { account }, SignUpEvent::UserStored(Ok(()))) => {
                    ||| (r.0 == SignUpState::StoringDek { account } && (r.1 matches SignUpAction::StoreDek {
                        record,
                    } && seal_dek(account_dek(account, self.now), encode_utf8(self.kek@)) == Some(
                        record@,
                    )))
                    ||| (r.0 is Done && (r.1 matches SignUpAction::Finish { result: Err(_) }) && !(
                    key_parts(encode_utf8(self.kek@)) is Some && sealable(account.user.uid@)
                        && sealable(account.user.email@) && sealable(account.dek@)))
                },
                (SignUpState::StoringDek { account }, SignUpEvent::DekStored(Ok(()))) => {
                    &&& r.0 == SignUpState::Minting { account }
                    &&& (r.1 matches SignUpAction::MintTokens { user } && user@ == account.user@)
                },
                (SignUpState::Minting { account }, SignUpEvent::TokensMinted(Ok((i, t)))) => {
                    ||| (r.0 matches SignUpState::StoringSession { account: a2, session } && a2
                        == account && session.uid@ == account.user.uid@ && session.id_token@ == i@
                        && session.refresh_token@ == t@ && session.user_agent@ == self.user_agent@
                        && !session.is_revoked && (r.1 matches SignUpAction::StoreSession {
                        session: stored,
                    } && seal_session(session@, encode_utf8(account.dek@)) == Some(stored@)))
                    ||| (r.0 is Done && (r.1 matches SignUpAction::Finish { result: Err(_) }) && !(
                    key_parts(encode_utf8(account.dek@)) is Some && sealable(account.user.uid@)
                        && sealable(account.user.email@) && sealable(i@) && sealable(t@) && sealable(
                        self.user_agent@,
                    )))
                },
                (SignUpState::StoringSession { account, session }, SignUpEvent::SessionStored(Ok(()))) => {
                    &&& r.0 is Done
                    &&& ((r.1 matches SignUpAction::Finish { result: Ok(a) } && a.uid@ == account.user.uid@
                        && a.session.id_token@ == session.id_token@
                        && a.session.refresh_token@ == session.refresh_token@)
                        || (r.1 matches SignUpAction::Finish { result: Err(_) } && !(key_parts(
                        encode_utf8(account.dek@),
                    ) is Some && sealable(session.session_id@))))
                },
                (_, SignUpEvent::UserStored(Err(e))) => r.0 is Done && r.1 == SignUpAction::Finish {
                    result: Err(e),
                },
                (_, SignUpEvent::DekStored(Err(e))) => r.0 is Done && r.1 == SignUpAction::Finish {
                    result: Err(e),
                },
                (_, SignUpEvent::TokensMinted(Err(e))) => r.0 is Done && r.1 == SignUpAction::Finish {
                    result: Err(e),
                },
                (_, SignUpEvent::SessionStored(Err(e))) => r.0 is Done && r.1 == SignUpAction::Finish {
                    result: Err(e),
                },
                _ => r.0 is Done && (r.1 matches SignUpAction::Finish {
                    result: Err(Error::ServerError { .. }),
                }),
            },
    {
        match (state, event) {
            (SignUpState::CheckingEmail, SignUpEvent::EmailLooked(found)) => {
                if let Err(e) = ensure_email_free(found) {
                    return (SignUpState::Done, SignUpAction::Finish { result: Err(e) });
                }
                let account = match Auth::new_account(&self.payload, self.now) {
                    Ok(a) => a,
                    Err(e) => return (SignUpState::Done, SignUpAction::Finish { result: Err(e) }),
                };
                match account.user.encrypt(account.dek.as_str()) {
                    Ok(user) => (SignUpState::StoringUser { account }, SignUpAction::StoreUser { user }),
                    Err(e) => (SignUpState::Done, SignUpAction::Finish { result: Err(e) }),
                }
            },
            (SignUpState::StoringUser { account }, SignUpEvent::UserStored(Ok(()))) => {
                let record = Dek::new(
                    account.user.uid.as_str(),
                    account.user.email.as_str(),
                    account.dek.as_str(),
                    self.now,
                );
                match record.encrypt(self.kek.as_str()) {
                    Ok(record) => (SignUpState::StoringDek { account }, SignUpAction::StoreDek { record }),
                    Err(e) => (SignUpState::Done, SignUpAction::Finish { result: Err(e) }),
                }
            },
            (SignUpState::StoringDek { account }, SignUpEvent::DekStored(Ok(()))) => {
                let user = account.user.clone_user();
                (SignUpState::Minting { account }, SignUpAction::MintTokens { user })
            },
            (SignUpState::Minting { account }, SignUpEvent::TokensMinted(Ok((i, t)))) => {
                let session = Session::new(&account.user, self.user_agent.as_str(), i.as_str(), t.as_str(), self.now);
                proof {
                    crate::user::lemma_short_text_sealable(session.session_id@);
                }
                match session.encrypt(account.dek.as_str()) {
                    Ok(stored) => (
                        SignUpState::StoringSession { account, session },
                        SignUpAction::StoreSession { session: stored },
                    ),
                    Err(e) => (SignUpState::Done, SignUpAction::Finish { result: Err(e) }),
                }
            },
            (SignUpState::StoringSession { account, session }, SignUpEvent::SessionStored(Ok(()))) => {
                let result = Auth::response("Signup successful", &account.user, &session, account.dek.as_str());
                (SignUpState::Done, SignUpAction::Finish { result })
            },
            (_, SignUpEvent::UserStored(Err(e))) => (SignUpState::Done, SignUpAction::Finish { result: Err(e) }),
            (_, SignUpEvent::DekStored(Err(e))) => (SignUpState::Done, SignUpAction::Finish { result: Err(e) }),
            (_, SignUpEvent::TokensMinted(Err(e))) => (SignUpState::Done, SignUpAction::Finish { result: Err(e) }),
            (_, SignUpEvent::SessionStored(Err(e))) => (SignUpState::Done, SignUpAction::Finish { result: Err(e) }),
            _ => (
                SignUpState::Done,
                SignUpAction::Finish {
                    result: Err(Error::ServerError { message: "unexpected event".to_string() }),
                },
            ),
        }
    }
}

} // verus!
