use vstd::prelude::*;
use vstd::string::StringSliceAdditionalSpecFns;
use vstd::utf8::encode_utf8;
use crate::crypto::{key_parts, sealed_text, Encryption};
use crate::user::sealable;
use crate::dek::Dek;
use crate::error::Error;
use crate::session::{
    apply_update, filter_matches, open_session, opt_text, Session, SessionFilter, SessionUpdate,
    SessionView,
};
use crate::tokens::{IDToken, RefreshToken};

verus! {

/// Where a verification stands.
#[derive(Clone, Debug)]
pub enum VerifyState {
    Decoding,
    LoadingDek { claims: IDToken },
    Counting { claims: IDToken },
    Done,
}

/// What the outside reports back during a verification.
#[derive(Debug)]
pub enum VerifyEvent {
    /// Result of `IDToken::verify` on the presented token.
    Decoded(Result<(IDToken, bool), Error>),
    /// The user's key record, as `Dek::from_found` gives it.
    DekLoaded(Result<Dek, Error>),
    /// How many stored sessions answered the query.
    Counted(Result<u64, Error>),
}

/// What the outside is asked to do next. None of these writes to the store.
#[derive(Debug)]
pub enum VerifyAction {
    DecodeIdToken { token: String },
    LoadDek { uid: String },
    CountSessions { filter: SessionFilter },
    Finish { result: Result<(IDToken, bool), Error> },
}

/// Server-side verification of an ID token.
pub struct VerifyRequest {
    pub id_token: String,
}

impl VerifyRequest {
    /// First step: decode the token.
    pub fn start(&self) -> (r: (VerifyState, VerifyAction))
        ensures
            r.0 is Decoding,
            r.1 matches VerifyAction::DecodeIdToken { token } && token@ == self.id_token@,
    {
        (VerifyState::Decoding, VerifyAction::DecodeIdToken { token: self.id_token.clone() })
    }

    /// One step. A stale token is returned as such without touching the store; a fresh one is
    /// accepted only when exactly one live session of its user holds it.
    pub fn step(&self, state: VerifyState, event: VerifyEvent) -> (r: (VerifyState, VerifyAction))
        ensures
            match (state, event) {
                (VerifyState::Decoding, VerifyEvent::Decoded(Err(e))) => r.0 is Done
                    && r.1 == VerifyAction::Finish { result: Err(e) },
                (VerifyState::Decoding, VerifyEvent::Decoded(Ok((c, fresh)))) => if fresh {
                    &&& r.0 == VerifyState::LoadingDek { claims: c }
                    &&& (r.1 matches VerifyAction::LoadDek { uid } && uid@ == c.uid@)
                } else {
                    r.0 is Done && r.1 == VerifyAction::Finish { result: Ok((c, false)) }
                },
                (VerifyState::LoadingDek { claims }, VerifyEvent::DekLoaded(Ok(d))) => {
                    ||| (r.0 == VerifyState::Counting { claims } && (r.1 matches VerifyAction::CountSessions {
                        filter,
                    } && sealed_text(claims.uid@, encode_utf8(d.dek@)) == opt_text(filter.uid)
                        && sealed_text(self.id_token@, encode_utf8(d.dek@)) == opt_text(filter.id_token)
                        && filter.session_id is None && filter.refresh_token is None
                        && filter.is_revoked == Some(false)))
                    ||| (r.0 is Done && (r.1 matches VerifyAction::Finish { result: Err(_) }))
                },
                (VerifyState::LoadingDek { .. }, VerifyEvent::DekLoaded(Err(e))) => r.0 is Done
                    && r.1 == VerifyAction::Finish { result: Err(e) },
                (VerifyState::Counting { claims }, VerifyEvent::Counted(n)) => {
                    &&& r.0 is Done
                    &&& if n == Ok::<u64, Error>(1) {
                        r.1 == VerifyAction::Finish { result: Ok((claims, true)) }
                    } else {
                        r.1 matches VerifyAction::Finish { result: Err(Error::InvalidToken { .. }) }
                    }
                },
                _ => r.0 is Done && r.1 matches VerifyAction::Finish {
                    result: Err(Error::ServerError { .. }),
                },
            },
    {
        match (state, event) {
            (VerifyState::Decoding, VerifyEvent::Decoded(Err(e))) => (
                VerifyState::Done,
                VerifyAction::Finish { result: Err(e) },
            ),
            (VerifyState::Decoding, VerifyEvent::Decoded(Ok((c, fresh)))) => {
                if fresh {
                    let uid = c.uid.clone();
                    (VerifyState::LoadingDek { claims: c }, VerifyAction::LoadDek { uid })
                } else {
                    (VerifyState::Done, VerifyAction::Finish { result: Ok((c, false)) })
                }
            },
            (VerifyState::LoadingDek { claims }, VerifyEvent::DekLoaded(Ok(d))) => {
                match Session::verify_filter(claims.uid.as_str(), self.id_token.as_str(), d.dek.as_str()) {
                    Ok(filter) => (VerifyState::Counting { claims }, VerifyAction::CountSessions { filter }),
                    Err(e) => (VerifyState::Done, VerifyAction::Finish { result: Err(e) }),
                }
            },
            (VerifyState::LoadingDek { .. }, VerifyEvent::DekLoaded(Err(e))) => (
                VerifyState::Done,
                VerifyAction::Finish { result: Err(e) },
            ),
            (VerifyState::Counting { claims }, VerifyEvent::Counted(n)) => {
                let one = match n {
                    Ok(k) => k == 1,
                    Err(_) => false,
                };
                if one {
                    (VerifyState::Done, VerifyAction::Finish { result: Ok((claims, true)) })
                } else {
                    (
                        VerifyState::Done,
                        VerifyAction::Finish {
                            result: Err(Error::InvalidToken { message: "Invalid token".to_string() }),
                        },
                    )
                }
            },
            _ => (
                VerifyState::Done,
                VerifyAction::Finish {
                    result: Err(Error::ServerError { message: "unexpected event".to_string() }),
                },
            ),
        }
    }
}

/// Where a refresh stands.
#[derive(Clone, Debug)]
pub enum RefreshState {
    CheckingRefreshToken,
    CheckingIdToken,
    LoadingDek { uid: String },
    FindingSession { uid: String, dek: String },
    Minting { uid: String, dek: String },
    Updating { id_token: String, refresh_token: String },
    Revoking { error: Error },
    Done,
}

/// What the outside reports back during a refresh.
#[derive(Debug)]
pub enum RefreshEvent {
    /// Result of `RefreshToken::verify` on the presented refresh token.
    RefreshTokenChecked(Result<RefreshToken, Error>),
    /// Result of a whole verification of the presented ID token.
    IdTokenChecked(Result<(IDToken, bool), Error>),
    /// The user's key record, as `Dek::from_found` gives it.
    DekLoaded(Result<Dek, Error>),
    /// The stored session the query found, still encrypted.
    SessionFound(Result<Option<Session>, Error>),
    /// A newly signed ID token and refresh token.
    TokensMinted(Result<(String, String), Error>),
    /// How many stored sessions the conditional update changed.
    SessionUpdated(Result<u64, Error>),
    /// Outcome of revoking the session.
    SessionRevoked(Result<(), Error>),
}

/// What the outside is asked to do next.
#[derive(Debug)]
pub enum RefreshAction {
    VerifyRefreshToken { token: String },
    VerifyIdToken { token: String },
    LoadDek { uid: String },
    FindSession { filter: SessionFilter },
    MintTokens { uid: String },
    UpdateSession { filter: SessionFilter, update: SessionUpdate },
    RevokeSession { session_id: String, uid: String },
    /// The end: `alert`, when set, is the address a security warning goes to before the result
    /// is returned.
    Finish { result: Result<(String, String), Error>, alert: Option<String> },
}

/// A request to exchange a stale ID token and its refresh token for a new pair.
/// `now` is the time of the request in milliseconds since the Unix epoch.
pub struct RefreshRequest {
    pub uid: String,
    pub session_id: String,
    pub id_token: String,
    pub refresh_token: String,
    pub user_agent: String,
    pub now: i64,
}

/// The states a refresh can be in: a pair about to be installed differs from the presented one.
pub open spec fn refresh_state_ok(req: RefreshRequest, s: RefreshState) -> bool {
    match s {
        RefreshState::Updating { id_token, refresh_token } => id_token@ != req.id_token@
            && refresh_token@ != req.refresh_token@,
        _ => true,
    }
}

/// The action that revokes the presented session.
pub open spec fn revokes_session(req: RefreshRequest, a: RefreshAction) -> bool {
    a matches RefreshAction::RevokeSession { session_id, uid } && session_id@ == req.session_id@
        && uid@ == req.uid@
}

/// The query for the live session named by the request, under the user's data key.
pub open spec fn finds_live_session(req: RefreshRequest, uid: Seq<char>, dek: Seq<char>, f: SessionFilter) -> bool {
    &&& sealed_text(uid, encode_utf8(dek)) == opt_text(f.uid)
    &&& sealed_text(req.session_id@, encode_utf8(dek)) == opt_text(f.session_id)
    &&& f.id_token is None && f.refresh_token is None
    &&& f.is_revoked == Some(false)
}

/// The conditional rotation: the live session holding the presented pair gets the new pair.
pub open spec fn rotates_pair(
    req: RefreshRequest,
    uid: Seq<char>,
    dek: Seq<char>,
    new_id: Seq<char>,
    new_refresh: Seq<char>,
    f: SessionFilter,
    u: SessionUpdate,
) -> bool {
    let k = encode_utf8(dek);
    &&& sealed_text(uid, k) == opt_text(f.uid)
    &&& sealed_text(req.id_token@, k) == opt_text(f.id_token)
    &&& sealed_text(req.refresh_token@, k) == opt_text(f.refresh_token)
    &&& f.session_id is None && f.is_revoked == Some(false)
    &&& sealed_text(new_id, k) == opt_text(u.id_token)
    &&& sealed_text(new_refresh, k) == opt_text(u.refresh_token)
    &&& u.is_revoked is None && u.updated_at == Some(req.now)
    &&& opt_text(u.id_token) != opt_text(f.id_token)
    &&& opt_text(u.refresh_token) != opt_text(f.refresh_token)
}

/// A rotation to a new pair can be built: the pair is new, the data key well formed and every
/// text to encrypt fits in one AES-GCM message.
pub open spec fn rotation_possible(
    req: RefreshRequest,
    uid: Seq<char>,
    dek: Seq<char>,
    new_id: Seq<char>,
    new_refresh: Seq<char>,
) -> bool {
    &&& new_id != req.id_token@ && new_refresh != req.refresh_token@
    &&& key_parts(encode_utf8(dek)) is Some
    &&& sealable(uid) && sealable(req.id_token@) && sealable(req.refresh_token@)
    &&& sealable(new_id) && sealable(new_refresh)
}

impl RefreshRequest {
    /// First step: check the refresh token.
    pub fn start(&self) -> (r: (RefreshState, RefreshAction))
        ensures
            r.0 is CheckingRefreshToken,
            r.1 matches RefreshAction::VerifyRefreshToken { token } && token@ == self.refresh_token@,
    {
        (
            RefreshState::CheckingRefreshToken,
            RefreshAction::VerifyRefreshToken { token: self.refresh_token.clone() },
        )
    }

    /// One step of a refresh. A bad refresh token, a failed verification or a replayed pair
    /// revokes the session; a still fresh ID token is refused; a user agent other than the
    /// session's is refused with a warning and without revoking; otherwise the pair is rotated
    /// in one conditional update, and an update that changes nothing counts as a replay.
    pub fn step(&self, state: RefreshState, event: RefreshEvent) -> (r: (RefreshState, RefreshAction))
        requires
            refresh_state_ok(*self, state),
        ensures
            refresh_state_ok(*self, r.0),
            r.1 matches RefreshAction::Finish { result: Ok((i, t)), .. } ==> i@ != self.id_token@
                && t@ != self.refresh_token@,
            match (state, event) {
                (RefreshState::CheckingRefreshToken, RefreshEvent::RefreshTokenChecked(Ok(_))) => {
                    &&& r.0 is CheckingIdToken
                    &&& (r.1 matches RefreshAction::VerifyIdToken { token } && token@ == self.id_token@)
                },
                (RefreshState::CheckingRefreshToken, RefreshEvent::RefreshTokenChecked(Err(e))) => {
                    r.0 == RefreshState::Revoking { error: e } && revokes_session(*self, r.1)
                },
                (RefreshState::CheckingIdToken, RefreshEvent::IdTokenChecked(Err(e))) => {
                    r.0 == RefreshState::Revoking { error: e } && revokes_session(*self, r.1)
                },
                (RefreshState::CheckingIdToken, RefreshEvent::IdTokenChecked(Ok((c, fresh)))) => if fresh {
                    &&& r.0 is Done
                    &&& r.1 matches RefreshAction::Finish {
                        result: Err(Error::ActiveSessionExists { .. }),
                        alert: None,
                    }
                } else {
                    &&& (r.0 matches RefreshState::LoadingDek { uid } && uid@ == c.uid@)
                    &&& (r.1 matches RefreshAction::LoadDek { uid } && uid@ == c.uid@)
                },
                (RefreshState::LoadingDek { .. }, RefreshEvent::DekLoaded(Err(e))) => {
                    r.0 is Done && r.1 == RefreshAction::Finish { result: Err(e), alert: None }
                },
                (RefreshState::LoadingDek { uid }, RefreshEvent::DekLoaded(Ok(d))) => {
                    &&& {
                        ||| (r.0 == RefreshState::FindingSession { uid, dek: d.dek } && (r.1 matches RefreshAction::FindSession {
                            filter,
                        } && finds_live_session(*self, uid@, d.dek@, filter)))
                        ||| (r.0 is Done && (r.1 matches RefreshAction::Finish { result: Err(_), alert: None }))
                    }
                    &&& (key_parts(encode_utf8(d.dek@)) is Some && sealable(uid@) && sealable(
                        self.session_id@,
                    ) ==> r.0 is FindingSession)
                },
                (RefreshState::FindingSession { .. }, RefreshEvent::SessionFound(Err(e))) => {
                    r.0 is Done && r.1 == RefreshAction::Finish { result: Err(e), alert: None }
                },
                (RefreshState::FindingSession { .. }, RefreshEvent::SessionFound(Ok(None))) => {
                    &&& r.0 is Done
                    &&& r.1 matches RefreshAction::Finish {
                        result: Err(Error::SessionExpired { .. }),
                        alert: None,
                    }
                },
                (RefreshState::FindingSession { uid, dek }, RefreshEvent::SessionFound(Ok(Some(doc)))) => {
                    match open_session(doc@, encode_utf8(dek@)) {
                        None => r.0 is Done && (r.1 matches RefreshAction::Finish { result: Err(_), alert: None }),
                        Some(v) => if v.user_agent != self.user_agent@ {
                            &&& r.0 is Done
                            &&& r.1 matches RefreshAction::Finish {
                                result: Err(Error::InvalidUserAgent { .. }),
                                alert: Some(to),
                            }
                            &&& to@ == v.email
                        } else if v.id_token == self.id_token@ && v.refresh_token == self.refresh_token@ {
                            &&& r.0 == RefreshState::Minting { uid, dek }
                            &&& (r.1 matches RefreshAction::MintTokens { uid: u } && u@ == uid@)
                        } else {
                            &&& r.0 matches RefreshState::Revoking { error: Error::InvalidToken { .. } }
                            &&& revokes_session(*self, r.1)
                        },
                    }
                },
                (RefreshState::Minting { .. }, RefreshEvent::TokensMinted(Err(e))) => {
                    r.0 is Done && r.1 == RefreshAction::Finish { result: Err(e), alert: None }
                },
                (RefreshState::Minting { uid, dek }, RefreshEvent::TokensMinted(Ok((i, t)))) => {
                    &&& {
                        ||| (r.0 == RefreshState::Updating { id_token: i, refresh_token: t } && (r.1 matches RefreshAction::UpdateSession {
                            filter,
                            update,
                        } && rotates_pair(*self, uid@, dek@, i@, t@, filter, update)))
                        ||| (r.0 is Done && (r.1 matches RefreshAction::Finish { result: Err(_), alert: None }))
                    }
                    &&& (rotation_possible(*self, uid@, dek@, i@, t@) ==> r.0 is Updating)
                },
                (RefreshState::Updating { .. }, RefreshEvent::SessionUpdated(Err(e))) => {
                    r.0 is Done && r.1 == RefreshAction::Finish { result: Err(e), alert: None }
                },
                (RefreshState::Updating { id_token, refresh_token }, RefreshEvent::SessionUpdated(Ok(n))) => if n == 0 {
                    &&& r.0 matches RefreshState::Revoking { error: Error::InvalidToken { .. } }
                    &&& revokes_session(*self, r.1)
                } else {
                    &&& r.0 is Done
                    &&& r.1 == RefreshAction::Finish { result: Ok((id_token, refresh_token)), alert: None }
                },
                (RefreshState::Revoking { error }, RefreshEvent::SessionRevoked(done)) => {
                    &&& r.0 is Done
                    &&& r.1 == RefreshAction::Finish {
                        result: match done {
                            Ok(()) => Err(error),
                            Err(e) => Err(e),
                        },
                        alert: None,
                    }
                },
                _ => r.0 is Done && (r.1 matches RefreshAction::Finish {
                    result: Err(Error::ServerError { .. }),
                    alert: None,
                }),
            },
    {
        match (state, event) {
            (RefreshState::CheckingRefreshToken, RefreshEvent::RefreshTokenChecked(Ok(_))) => (
                RefreshState::CheckingIdToken,
                RefreshAction::VerifyIdToken { token: self.id_token.clone() },
            ),
            (RefreshState::CheckingRefreshToken, RefreshEvent::RefreshTokenChecked(Err(e))) => (
                RefreshState::Revoking { error: e },
                self.revoke(),
            ),
            (RefreshState::CheckingIdToken, RefreshEvent::IdTokenChecked(Err(e))) => (
                RefreshState::Revoking { error: e },
                self.revoke(),
            ),
            (RefreshState::CheckingIdToken, RefreshEvent::IdTokenChecked(Ok((c, fresh)))) => {
                if fresh {
                    (
                        RefreshState::Done,
                        RefreshAction::Finish {
                            result: Err(
                                Error::ActiveSessionExists {
                                    message: "Active Session already exists".to_string(),
                                },
                            ),
                            alert: None,
                        },
                    )
                } else {
                    let uid = c.uid.clone();
                    (RefreshState::LoadingDek { uid: c.uid }, RefreshAction::LoadDek { uid })
                }
            },
            (RefreshState::LoadingDek { .. }, RefreshEvent::DekLoaded(Err(e))) => (
                RefreshState::Done,
                RefreshAction::Finish { result: Err(e), alert: None },
            ),
            (RefreshState::LoadingDek { uid }, RefreshEvent::DekLoaded(Ok(d))) => {
                match Session::session_filter(uid.as_str(), self.session_id.as_str(), d.dek.as_str()) {
                    Ok(f) => {
                        let filter = SessionFilter {
                            uid: f.uid,
                            session_id: f.session_id,
                            id_token: None,
                            refresh_token: None,
                            is_revoked: Some(false),
                        };
                        (RefreshState::FindingSession { uid, dek: d.dek }, RefreshAction::FindSession { filter })
                    },
                    Err(e) => (RefreshState::Done, RefreshAction::Finish { result: Err(e), alert: None }),
                }
            },
            (RefreshState::FindingSession { .. }, RefreshEvent::SessionFound(Err(e))) => (
                RefreshState::Done,
                RefreshAction::Finish { result: Err(e), alert: None },
            ),
            (RefreshState::FindingSession { .. }, RefreshEvent::SessionFound(Ok(None))) => (
                RefreshState::Done,
                RefreshAction::Finish {
                    result: Err(Error::SessionExpired { message: "Invalid token".to_string() }),
                    alert: None,
                },
            ),
            (RefreshState::FindingSession { uid, dek }, RefreshEvent::SessionFound(Ok(Some(doc)))) => {
                match doc.decrypt(dek.as_str()) {
                    Err(e) => (RefreshState::Done, RefreshAction::Finish { result: Err(e), alert: None }),
                    Ok(v) => {
                        if v.user_agent != self.user_agent {
                            (
                                RefreshState::Done,
                                RefreshAction::Finish {
                                    result: Err(
                                        Error::InvalidUserAgent {
                                            message: "User Agent doesn't match with it's Session's User Agent".to_string(),
                                        },
                                    ),
                                    alert: Some(v.email),
                                },
                            )
                        } else if v.id_token == self.id_token && v.refresh_token == self.refresh_token {
                            let u = uid.clone();
                            (RefreshState::Minting { uid, dek }, RefreshAction::MintTokens { uid: u })
                        } else {
                            (
                                RefreshState::Revoking {
                                    error: Error::InvalidToken { message: "Invalid token".to_string() },
                                },
                                self.revoke(),
                            )
                        }
                    },
                }
            },
            (RefreshState::Minting { .. }, RefreshEvent::TokensMinted(Err(e))) => (
                RefreshState::Done,
                RefreshAction::Finish { result: Err(e), alert: None },
            ),
            (RefreshState::Minting { uid, dek }, RefreshEvent::TokensMinted(Ok((i, t)))) => {
                match self.rotation(uid.as_str(), dek.as_str(), i.as_str(), t.as_str()) {
                    Ok((filter, update)) => (
                        RefreshState::Updating { id_token: i, refresh_token: t },
                        RefreshAction::UpdateSession { filter, update },
                    ),
                    Err(e) => (RefreshState::Done, RefreshAction::Finish { result: Err(e), alert: None }),
                }
            },
            (RefreshState::Updating { .. }, RefreshEvent::SessionUpdated(Err(e))) => (
                RefreshState::Done,
                RefreshAction::Finish { result: Err(e), alert: None },
            ),
            (RefreshState::Updating { id_token, refresh_token }, RefreshEvent::SessionUpdated(Ok(n))) => {
                if n == 0 {
                    (
                        RefreshState::Revoking {
                            error: Error::InvalidToken { message: "Invalid token".to_string() },
                        },
                        self.revoke(),
                    )
                } else {
                    (
                        RefreshState::Done,
                        RefreshAction::Finish { result: Ok((id_token, refresh_token)), alert: None },
                    )
                }
            },
            (RefreshState::Revoking { error }, RefreshEvent::SessionRevoked(done)) => {
                let result = match done {
                    Ok(()) => Err(error),
                    Err(e) => Err(e),
                };
                (RefreshState::Done, RefreshAction::Finish { result, alert: None })
            },
            _ => (
                RefreshState::Done,
                RefreshAction::Finish {
                    result: Err(Error::ServerError { message: "unexpected event".to_string() }),
                    alert: None,
                },
            ),
        }
    }

    fn revoke(&self) -> (r: RefreshAction)
        ensures
            revokes_session(*self, r),
    {
        RefreshAction::RevokeSession { session_id: self.session_id.clone(), uid: self.uid.clone() }
    }

    /// The conditional update that swaps the presented pair for the new one.
    fn rotation(&self, uid: &str, dek: &str, new_id: &str, new_refresh: &str) -> (r: Result<
        (SessionFilter, SessionUpdate),
        Error,
    >)
        ensures
            rotation_possible(*self, uid@, dek@, new_id@, new_refresh@) ==> r is Ok,
            r matches Ok((f, u)) ==> rotates_pair(*self, uid@, dek@, new_id@, new_refresh@, f, u)
                && new_id@ != self.id_token@ && new_refresh@ != self.refresh_token@,
    {
        if str_eq(new_id, self.id_token.as_str()) || str_eq(new_refresh, self.refresh_token.as_str()) {
            return Err(Error::ServerError { message: "token pair was not renewed".to_string() });
        }
        let u = Encryption::encrypt_data(uid, dek)?;
        let old_id = Encryption::encrypt_data(self.id_token.as_str(), dek)?;
        let old_refresh = Encryption::encrypt_data(self.refresh_token.as_str(), dek)?;
        let fresh_id = Encryption::encrypt_data(new_id, dek)?;
        let fresh_refresh = Encryption::encrypt_data(new_refresh, dek)?;
        proof {
            if fresh_id@ == old_id@ {
                assert(sealed_text(self.id_token@, dek.spec_bytes()) == Some(fresh_id@));
            }
            if fresh_refresh@ == old_refresh@ {
                assert(sealed_text(self.refresh_token@, dek.spec_bytes()) == Some(fresh_refresh@));
            }
        }
        Ok((
            SessionFilter {
                uid: Some(u),
                session_id: None,
                id_token: Some(old_id),
                refresh_token: Some(old_refresh),
                is_revoked: Some(false),
            },
            SessionUpdate {
                id_token: Some(fresh_id),
                refresh_token: Some(fresh_refresh),
                is_revoked: None,
                updated_at: Some(self.now),
            },
        ))
    }
}

fn str_eq(a: &str, b: &str) -> (r: bool)
    ensures
        r == (a@ == b@),
{
    a.to_string() == b.to_string()
}

/// After a rotation, the session it changed no longer answers verification of the old ID token:
/// the presented pair stops validating once the new pair is installed.
pub proof fn lemma_rotation_retires_old_pair(
    d: SessionView,
    f: SessionFilter,
    u: SessionUpdate,
    check: SessionFilter,
)
    requires
        filter_matches(f, d),
        f.id_token is Some,
        u.id_token is Some,
        opt_text(u.id_token) != opt_text(f.id_token),
        opt_text(check.id_token) == opt_text(f.id_token),
    ensures
        !filter_matches(check, apply_update(u, d)),
{
}

} // verus!
