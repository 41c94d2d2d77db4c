use flexauth::accounts::DeletionPlan;
use flexauth::dek::Dek;
use flexauth::error::Error;
use flexauth::flows::{
    RefreshAction, RefreshEvent, RefreshRequest, RefreshState, VerifyAction, VerifyEvent,
    VerifyRequest, VerifyState,
};
use flexauth::session::{Session, SessionFilter, SessionUpdate};
use flexauth::tokens::{IDToken, RefreshToken};
use flexauth::user::User;

const DEK: &str = "0123456789abcdef0123456789abcdef.0123456789ab";
const KEK: &str = "fedcba9876543210fedcba9876543210.ba9876543210";
const UID: &str = "6f1c2b7e-3d4a-4f8e-9b1a-2c3d4e5f6a7b";
const NOW_S: u64 = 1_700_000_000;
const NOW_MS: i64 = 1_700_000_000_000;

fn field_ok(want: &Option<String>, have: &str) -> bool {
    want.as_deref().map_or(true, |w| w == have)
}

fn matches(f: &SessionFilter, d: &Session) -> bool {
    field_ok(&f.uid, &d.uid)
        && field_ok(&f.session_id, &d.session_id)
        && field_ok(&f.id_token, &d.id_token)
        && field_ok(&f.refresh_token, &d.refresh_token)
        && f.is_revoked.map_or(true, |b| b == d.is_revoked)
}

fn apply(u: &SessionUpdate, d: &mut Session) {
    if let Some(t) = &u.id_token {
        d.id_token = t.clone();
    }
    if let Some(t) = &u.refresh_token {
        d.refresh_token = t.clone();
    }
    if let Some(b) = u.is_revoked {
        d.is_revoked = b;
    }
    if let Some(t) = u.updated_at {
        d.updated_at = t;
    }
}

fn update_one(store: &mut [Session], f: &SessionFilter, u: &SessionUpdate) -> u64 {
    match store.iter_mut().find(|d| matches(f, d)) {
        Some(d) => {
            apply(u, d);
            1
        }
        None => 0,
    }
}

fn update_many(store: &mut [Session], f: &SessionFilter, u: &SessionUpdate) -> u64 {
    let mut n = 0;
    for d in store.iter_mut().filter(|d| matches(f, d)) {
        apply(u, d);
        n += 1;
    }
    n
}

fn count(store: &[Session], f: &SessionFilter) -> u64 {
    store.iter().filter(|d| matches(f, d)).count() as u64
}

fn user() -> User {
    User::new(UID, "A", "a@b.co", "user", "digest.salt", NOW_MS)
}

fn dek_record() -> Dek {
    Dek::new(UID, "a@b.co", DEK, NOW_MS)
}

struct Setup {
    store: Vec<Session>,
    session: Session,
}

fn setup() -> Setup {
    let s = Session::new(&user(), "ua/1", "old.id.tok", "old.re.fresh", NOW_MS);
    Setup { store: vec![s.encrypt(DEK).unwrap()], session: s }
}

fn request(s: &Session, ua: &str) -> RefreshRequest {
    RefreshRequest {
        uid: UID.to_string(),
        session_id: s.session_id.clone(),
        id_token: "old.id.tok".to_string(),
        refresh_token: "old.re.fresh".to_string(),
        user_agent: ua.to_string(),
        now: NOW_MS + 4_000_000,
    }
}

fn id_claims(fresh: bool) -> Result<(IDToken, bool), Error> {
    Ok((IDToken::new(&user(), "http://localhost:8080", NOW_S), fresh))
}

/// Runs a refresh against the in-memory store; `minted` is the pair the signer hands back.
fn run_refresh(
    req: &RefreshRequest,
    store: &mut Vec<Session>,
    fresh: bool,
    minted: (&str, &str),
    refresh_ok: bool,
) -> (Result<(String, String), Error>, Option<String>, Vec<&'static str>) {
    let mut trail = Vec::new();
    let (mut state, mut action) = req.start();
    loop {
        let event = match action {
            RefreshAction::VerifyRefreshToken { .. } => {
                trail.push("verify-refresh");
                RefreshEvent::RefreshTokenChecked(if refresh_ok {
                    Ok(RefreshToken::new(UID, "http://localhost:8080", NOW_S))
                } else {
                    Err(Error::ExpiredSignature { message: String::new() })
                })
            }
            RefreshAction::VerifyIdToken { .. } => {
                trail.push("verify-id");
                RefreshEvent::IdTokenChecked(id_claims(fresh))
            }
            RefreshAction::LoadDek { .. } => {
                trail.push("load-dek");
                RefreshEvent::DekLoaded(Ok(dek_record()))
            }
            RefreshAction::FindSession { filter } => {
                trail.push("find");
                RefreshEvent::SessionFound(Ok(store.iter().find(|d| matches(&filter, d)).cloned()))
            }
            RefreshAction::MintTokens { .. } => {
                trail.push("mint");
                RefreshEvent::TokensMinted(Ok((minted.0.to_string(), minted.1.to_string())))
            }
            RefreshAction::UpdateSession { filter, update } => {
                trail.push("update");
                RefreshEvent::SessionUpdated(Ok(update_one(store, &filter, &update)))
            }
            RefreshAction::RevokeSession { session_id, uid } => {
                trail.push("revoke");
                let f = Session::session_filter(&uid, &session_id, DEK).unwrap();
                update_many(store, &f, &Session::revoke_update());
                RefreshEvent::SessionRevoked(Ok(()))
            }
            RefreshAction::Finish { result, alert } => return (result, alert, trail),
        };
        let next = req.step(state, event);
        state = next.0;
        action = next.1;
    }
}

fn run_verify(token: &str, store: &[Session], fresh: bool) -> Result<(IDToken, bool), Error> {
    let req = VerifyRequest { id_token: token.to_string() };
    let (mut state, mut action) = req.start();
    loop {
        let event = match action {
            VerifyAction::DecodeIdToken { .. } => VerifyEvent::Decoded(id_claims(fresh)),
            VerifyAction::LoadDek { .. } => VerifyEvent::DekLoaded(Ok(dek_record())),
            VerifyAction::CountSessions { filter } => VerifyEvent::Counted(Ok(count(store, &filter))),
            VerifyAction::Finish { result } => return result,
        };
        let next = req.step(state, event);
        state = next.0;
        action = next.1;
    }
}

#[test]
fn refresh_of_a_stale_token_rotates_the_pair() {
    let Setup { mut store, session } = setup();
    let req = request(&session, "ua/1");
    let (result, alert, trail) = run_refresh(&req, &mut store, false, ("new.id.tok", "new.re.fresh"), true);
    let (id, rt) = result.unwrap();
    assert_eq!((id.as_str(), rt.as_str()), ("new.id.tok", "new.re.fresh"));
    assert_ne!(id, req.id_token);
    assert_ne!(rt, req.refresh_token);
    assert_eq!(alert, None);
    assert_eq!(trail, vec!["verify-refresh", "verify-id", "load-dek", "find", "mint", "update"]);
    let back = store[0].decrypt(DEK).unwrap();
    assert_eq!(back.id_token, "new.id.tok");
    assert_eq!(back.refresh_token, "new.re.fresh");
    assert!(!back.is_revoked);
    assert_eq!(back.updated_at, req.now);
}

#[test]
fn old_id_token_no_longer_verifies_after_rotation() {
    let Setup { mut store, session } = setup();
    assert!(matches!(run_verify("old.id.tok", &store, true), Ok((_, true))));
    let req = request(&session, "ua/1");
    run_refresh(&req, &mut store, false, ("new.id.tok", "new.re.fresh"), true).0.unwrap();
    assert!(matches!(run_verify("old.id.tok", &store, true), Err(Error::InvalidToken { .. })));
    assert!(matches!(run_verify("new.id.tok", &store, true), Ok((_, true))));
}

#[test]
fn refresh_while_fresh_is_refused_and_changes_nothing() {
    let Setup { mut store, session } = setup();
    let before = store[0].clone();
    let req = request(&session, "ua/1");
    let (result, _, trail) = run_refresh(&req, &mut store, true, ("n", "m"), true);
    assert!(matches!(result, Err(Error::ActiveSessionExists { .. })));
    assert_eq!(trail, vec!["verify-refresh", "verify-id"]);
    assert_eq!(store[0].id_token, before.id_token);
    assert!(!store[0].is_revoked);
    let (status, _) = result.unwrap_err().client_status_and_error();
    assert_eq!(status, 409);
}

#[test]
fn refresh_from_another_user_agent_warns_and_keeps_the_session() {
    let Setup { mut store, session } = setup();
    let req = request(&session, "ua/2");
    let (result, alert, trail) = run_refresh(&req, &mut store, false, ("n", "m"), true);
    let err = result.unwrap_err();
    assert!(matches!(err, Error::InvalidUserAgent { .. }));
    assert_eq!(err.client_status_and_error().0, 400);
    assert_eq!(alert.as_deref(), Some("a@b.co"));
    assert!(!trail.contains(&"revoke"));
    assert!(!store[0].is_revoked);
    assert_eq!(store[0].decrypt(DEK).unwrap().id_token, "old.id.tok");
}

#[test]
fn refresh_of_a_revoked_session_is_session_expired() {
    let Setup { mut store, session } = setup();
    store[0].is_revoked = true;
    let req = request(&session, "ua/1");
    let (result, _, _) = run_refresh(&req, &mut store, false, ("n", "m"), true);
    assert!(matches!(result, Err(Error::SessionExpired { .. })));
}

#[test]
fn replayed_pair_revokes_the_session() {
    let Setup { mut store, session } = setup();
    let mut req = request(&session, "ua/1");
    req.refresh_token = "stolen.but.stale".to_string();
    let (result, _, trail) = run_refresh(&req, &mut store, false, ("n", "m"), true);
    assert!(matches!(result, Err(Error::InvalidToken { .. })));
    assert!(trail.contains(&"revoke"));
    assert!(store[0].is_revoked);
}

#[test]
fn rotation_that_changes_nothing_counts_as_replay() {
    let Setup { session, .. } = setup();
    let req = request(&session, "ua/1");
    let st = RefreshState::Updating { id_token: "n".to_string(), refresh_token: "m".to_string() };
    let (state, action) = req.step(st, RefreshEvent::SessionUpdated(Ok(0)));
    assert!(matches!(state, RefreshState::Revoking { error: Error::InvalidToken { .. } }));
    assert!(matches!(action, RefreshAction::RevokeSession { .. }));
    let (_, done) = req.step(state, RefreshEvent::SessionRevoked(Ok(())));
    assert!(matches!(done, RefreshAction::Finish { result: Err(Error::InvalidToken { .. }), .. }));
}

#[test]
fn bad_refresh_token_revokes_and_reports_its_error() {
    let Setup { mut store, session } = setup();
    let req = request(&session, "ua/1");
    let (result, _, trail) = run_refresh(&req, &mut store, false, ("n", "m"), false);
    assert!(matches!(result, Err(Error::ExpiredSignature { .. })));
    assert_eq!(trail, vec!["verify-refresh", "revoke"]);
    assert!(store[0].is_revoked);
}

#[test]
fn minted_pair_equal_to_the_old_one_is_not_installed() {
    let Setup { mut store, session } = setup();
    let req = request(&session, "ua/1");
    let (result, _, trail) = run_refresh(&req, &mut store, false, ("old.id.tok", "x"), true);
    assert!(matches!(result, Err(Error::ServerError { .. })));
    assert!(!trail.contains(&"update"));
}

#[test]
fn events_out_of_order_end_the_refresh() {
    let Setup { session, .. } = setup();
    let req = request(&session, "ua/1");
    let (state, action) = req.step(RefreshState::Done, RefreshEvent::SessionUpdated(Ok(1)));
    assert!(matches!(state, RefreshState::Done));
    assert!(matches!(action, RefreshAction::Finish { result: Err(Error::ServerError { .. }), .. }));
}

#[test]
fn stale_token_verifies_as_stale_without_the_store() {
    let req = VerifyRequest { id_token: "t".to_string() };
    let (state, action) = req.start();
    assert!(matches!(action, VerifyAction::DecodeIdToken { .. }));
    let (state, action) = req.step(state, VerifyEvent::Decoded(id_claims(false)));
    assert!(matches!(state, VerifyState::Done));
    assert!(matches!(action, VerifyAction::Finish { result: Ok((_, false)) }));
}

#[test]
fn verification_needs_exactly_one_live_session() {
    let Setup { mut store, .. } = setup();
    assert!(matches!(run_verify("old.id.tok", &store, true), Ok((_, true))));
    let dup = store[0].clone();
    store.push(dup);
    assert!(matches!(run_verify("old.id.tok", &store, true), Err(Error::InvalidToken { .. })));
    store.pop();
    store[0].is_revoked = true;
    assert!(matches!(run_verify("old.id.tok", &store, true), Err(Error::InvalidToken { .. })));
}

#[test]
fn verification_leaves_the_store_untouched() {
    let Setup { store, .. } = setup();
    let before: Vec<(String, bool)> = store.iter().map(|d| (d.id_token.clone(), d.is_revoked)).collect();
    let _ = run_verify("old.id.tok", &store, true);
    let _ = run_verify("old.id.tok", &store, false);
    let after: Vec<(String, bool)> = store.iter().map(|d| (d.id_token.clone(), d.is_revoked)).collect();
    assert_eq!(before, after);
}

#[test]
fn revoke_all_twice_is_revoke_all_once() {
    let u = user();
    let mut store: Vec<Session> = (0..3)
        .map(|i| Session::new(&u, "ua/1", &format!("id{}", i), &format!("rt{}", i), i).encrypt(DEK).unwrap())
        .collect();
    let other = User::new("other-uid", "B", "b@b.co", "user", "p", 0);
    store.push(Session::new(&other, "ua/9", "idx", "rtx", 0).encrypt(DEK).unwrap());
    let f = Session::uid_filter(UID, DEK).unwrap();
    let first = update_many(&mut store, &f, &Session::revoke_update());
    assert_eq!(first, 3);
    let snapshot: Vec<bool> = store.iter().map(|d| d.is_revoked).collect();
    update_many(&mut store, &f, &Session::revoke_update());
    let again: Vec<bool> = store.iter().map(|d| d.is_revoked).collect();
    assert_eq!(snapshot, again);
    assert_eq!(again, vec![true, true, true, false]);
}

#[test]
fn deletion_plan_selects_everything_sign_up_stored() {
    let u = user();
    let rec = dek_record();
    let stored_user = u.encrypt(DEK).unwrap();
    let stored_dek = rec.encrypt(KEK).unwrap();
    let stored_session = Session::new(&u, "ua/1", "i", "r", 0).encrypt(DEK).unwrap();
    let plan: DeletionPlan = User::deletion_plan(&rec, KEK).unwrap();
    assert_eq!(plan.user_uid, stored_user.uid);
    assert_eq!(plan.dek_uid, stored_dek.uid);
    assert_eq!(plan.session_uid, stored_session.uid);
    let mut sessions = vec![stored_session];
    sessions.retain(|d| d.uid != plan.session_uid);
    assert!(sessions.is_empty());
    assert!(matches!(User::deletion_outcome(UID, 1, 1), Ok(ref s) if s == UID));
    assert!(matches!(User::deletion_outcome(UID, 0, 0), Err(Error::UserNotFound { .. })));
    assert!(matches!(User::deletion_outcome(UID, 1, 0), Err(Error::KeyNotFound { .. })));
}
