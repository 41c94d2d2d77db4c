use flexauth::accounts::{DeletionAction, DeletionEvent, DeletionRequest};
use flexauth::auth::{SignInOrSignUpResponse, SignUpPayload};
use flexauth::crypto::Encryption;
use flexauth::dek::{Dek, DekField};
use flexauth::error::Error;
use flexauth::session::Session;
use flexauth::signup::{SignUpAction, SignUpEvent, SignUpRequest};
use flexauth::user::User;

const KEK: &str = "fedcba9876543210fedcba9876543210.ba9876543210";
const NOW: i64 = 1_700_000_000_000;

#[derive(Default)]
struct Db {
    users: Vec<User>,
    deks: Vec<Dek>,
    sessions: Vec<Session>,
}

fn payload(email: &str, password: &str) -> SignUpPayload {
    SignUpPayload {
        name: "A".to_string(),
        email: email.to_string(),
        password: password.to_string(),
        role: "user".to_string(),
    }
}

fn sign_up(db: &mut Db, p: SignUpPayload, ua: &str) -> Result<SignInOrSignUpResponse, Error> {
    let req = SignUpRequest { payload: p, user_agent: ua.to_string(), kek: KEK.to_string(), now: NOW };
    let (mut st, mut action) = req.start();
    loop {
        let event = match action {
            SignUpAction::LookupEmail { email } => {
                let q = Dek::lookup(&email, KEK).unwrap();
                assert_eq!(q.field, DekField::Email);
                let found = db.deks.iter().find(|d| d.email == q.value).cloned();
                SignUpEvent::EmailLooked(Dek::from_found(found, KEK))
            }
            SignUpAction::StoreUser { user } => {
                db.users.push(user);
                SignUpEvent::UserStored(Ok(()))
            }
            SignUpAction::StoreDek { record } => {
                db.deks.push(record);
                SignUpEvent::DekStored(Ok(()))
            }
            SignUpAction::MintTokens { user } => {
                SignUpEvent::TokensMinted(Ok((format!("id.{}", user.uid), format!("rt.{}", user.uid))))
            }
            SignUpAction::StoreSession { session } => {
                db.sessions.push(session);
                SignUpEvent::SessionStored(Ok(()))
            }
            SignUpAction::Finish { result } => return result,
        };
        let (next_state, next_action) = req.step(st, event);
        st = next_state;
        action = next_action;
    }
}

#[test]
fn sign_up_stores_user_key_and_session_under_one_uid() {
    let mut db = Db::default();
    let r = sign_up(&mut db, payload("a@b.co", "pass1234"), "ua/1").unwrap();
    assert_eq!(r.message, "Signup successful");
    assert_eq!(r.email, "a@b.co");
    assert_eq!(r.name, "A");
    assert_eq!(r.role, "user");
    assert!(r.is_active);
    assert!(!r.email_verified);
    assert_eq!(r.session.id_token, format!("id.{}", r.uid));
    assert_eq!((db.users.len(), db.deks.len(), db.sessions.len()), (1, 1, 1));
    let rec = Dek::from_found(Some(db.deks[0].clone()), KEK).unwrap();
    assert_eq!(rec.uid, r.uid);
    assert_eq!(db.users[0].uid, r.uid);
    let user = db.users[0].decrypt(&rec.dek).unwrap();
    assert_eq!(user.email, "a@b.co");
    let session = db.sessions[0].decrypt(&rec.dek).unwrap();
    assert_eq!(session.uid, r.uid);
    assert_eq!(session.user_agent, "ua/1");
    assert_eq!(Encryption::decrypt_data(&r.session.session_id, &rec.dek).unwrap(), session.session_id);
}

#[test]
fn second_sign_up_with_the_same_email_is_refused() {
    let mut db = Db::default();
    sign_up(&mut db, payload("a@b.co", "pass1234"), "ua/1").unwrap();
    let r = sign_up(&mut db, payload("a@b.co", "other123"), "ua/2");
    let err = r.unwrap_err();
    assert!(matches!(err, Error::UserAlreadyExists { .. }));
    assert_eq!(err.client_status_and_error().0, 302);
    assert_eq!(db.users.len(), 1);
}

#[test]
fn invalid_sign_up_stores_nothing() {
    let mut db = Db::default();
    assert!(matches!(sign_up(&mut db, payload("a@b.co", "abcdefgh"), "ua/1"), Err(Error::InvalidPassword { .. })));
    assert!(matches!(sign_up(&mut db, payload("a@b", "pass1234"), "ua/1"), Err(Error::InvalidEmail { .. })));
    assert!(matches!(sign_up(&mut db, payload("a@b.co", "pass1234"), ""), Err(Error::InvalidUserAgent { .. })));
    assert!(db.users.is_empty() && db.deks.is_empty() && db.sessions.is_empty());
}

#[test]
fn sign_up_then_delete_leaves_nothing_of_the_user() {
    let mut db = Db::default();
    let kept = sign_up(&mut db, payload("keep@b.co", "pass1234"), "ua/1").unwrap();
    let gone = sign_up(&mut db, payload("a@b.co", "pass1234"), "ua/1").unwrap();
    let q = Dek::lookup("a@b.co", KEK).unwrap();
    let rec = Dek::from_found(db.deks.iter().find(|d| d.email == q.value).cloned(), KEK).unwrap();
    let plan = User::deletion_plan(&rec, KEK).unwrap();
    let users_before = db.users.len();
    db.users.retain(|u| u.uid != plan.user_uid);
    let users_deleted = (users_before - db.users.len()) as u64;
    let deks_before = db.deks.len();
    db.deks.retain(|d| d.uid != plan.dek_uid);
    let deks_deleted = (deks_before - db.deks.len()) as u64;
    db.sessions.retain(|s| s.uid != plan.session_uid);
    assert_eq!(User::deletion_outcome(&rec.uid, users_deleted, deks_deleted).unwrap(), gone.uid);
    assert!(db.users.iter().all(|u| u.uid != gone.uid));
    assert_eq!((db.users.len(), db.deks.len(), db.sessions.len()), (1, 1, 1));
    assert_eq!(db.users[0].uid, kept.uid);
}

fn delete(db: &mut Db, email: &str) -> Result<String, Error> {
    let req = DeletionRequest { email: email.to_string(), kek: KEK.to_string() };
    let (mut st, mut action) = req.start();
    loop {
        let event = match action {
            DeletionAction::FindDek { email } => {
                let q = Dek::lookup(&email, KEK).unwrap();
                DeletionEvent::DekFound(Dek::from_found(db.deks.iter().find(|d| d.email == q.value).cloned(), KEK))
            }
            DeletionAction::DeleteUser { uid } => {
                let n = db.users.len();
                db.users.retain(|u| u.uid != uid);
                DeletionEvent::Deleted(Ok((n - db.users.len()) as u64))
            }
            DeletionAction::DeleteDek { uid } => {
                let n = db.deks.len();
                db.deks.retain(|d| d.uid != uid);
                DeletionEvent::Deleted(Ok((n - db.deks.len()) as u64))
            }
            DeletionAction::DeleteSessions { uid } => {
                let n = db.sessions.len();
                db.sessions.retain(|s| s.uid != uid);
                DeletionEvent::Deleted(Ok((n - db.sessions.len()) as u64))
            }
            DeletionAction::Finish { result } => return result,
        };
        let (next_state, next_action) = req.step(st, event);
        st = next_state;
        action = next_action;
    }
}

#[test]
fn deletion_protocol_removes_user_key_and_sessions() {
    let mut db = Db::default();
    let kept = sign_up(&mut db, payload("keep@b.co", "pass1234"), "ua/1").unwrap();
    let gone = sign_up(&mut db, payload("a@b.co", "pass1234"), "ua/2").unwrap();
    assert_eq!(delete(&mut db, "a@b.co").unwrap(), gone.uid);
    assert_eq!((db.users.len(), db.deks.len(), db.sessions.len()), (1, 1, 1));
    assert_eq!(db.users[0].uid, kept.uid);
    assert!(matches!(delete(&mut db, "a@b.co"), Err(Error::KeyNotFound { .. })));
}

#[test]
fn deletion_without_a_user_touches_nothing() {
    let mut db = Db::default();
    sign_up(&mut db, payload("a@b.co", "pass1234"), "ua/1").unwrap();
    db.users.clear();
    assert!(matches!(delete(&mut db, "a@b.co"), Err(Error::UserNotFound { .. })));
    assert_eq!((db.deks.len(), db.sessions.len()), (1, 1));
}
