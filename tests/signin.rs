use flexauth::accounts::UserUpdate;
use flexauth::auth::{Auth, SignInOrSignUpResponse, SignUpPayload};
use flexauth::dek::Dek;
use flexauth::error::Error;
use flexauth::session::Session;
use flexauth::signin::{SignInAction, SignInEvent, SignInRequest};
use flexauth::user::User;

const NOW: i64 = 1_700_000_000_000;

struct Db {
    user: User,
    dek: Dek,
    sessions: Vec<Session>,
    warnings: Vec<String>,
}

fn apply(u: &mut User, up: &UserUpdate) {
    if let Some(n) = up.failed_login_attempts {
        u.failed_login_attempts = n;
    }
    if let Some(t) = up.blocked_until {
        u.blocked_until = Some(t);
    }
    if let Some(t) = up.updated_at {
        u.updated_at = Some(t);
    }
}

fn sign_up() -> Db {
    let p = SignUpPayload {
        name: "A".to_string(),
        email: "a@b.co".to_string(),
        password: "pass1234".to_string(),
        role: "user".to_string(),
    };
    let acct = Auth::new_account(&p, NOW).unwrap();
    let dek = Dek::new(&acct.user.uid, &acct.user.email, &acct.dek, NOW);
    Db { user: acct.user.encrypt(&acct.dek).unwrap(), dek, sessions: Vec::new(), warnings: Vec::new() }
}

fn sign_in(db: &mut Db, password: &str, now: i64) -> Result<SignInOrSignUpResponse, Error> {
    let req = SignInRequest {
        email: "a@b.co".to_string(),
        password: password.to_string(),
        user_agent: "ua/1".to_string(),
        now,
    };
    let (mut st, mut action) = req.start();
    loop {
        let event = match action {
            SignInAction::LoadUser { .. } => {
                SignInEvent::UserLoaded(Ok((db.user.decrypt(&db.dek.dek).unwrap(), db.dek.clone())))
            }
            SignInAction::MintTokens { .. } => {
                SignInEvent::TokensMinted(Ok((format!("id.{}", now), format!("rt.{}", now))))
            }
            SignInAction::StoreSession { session } => {
                db.sessions.push(session);
                SignInEvent::SessionStored(Ok(()))
            }
            SignInAction::UpdateUser { update, .. } => {
                apply(&mut db.user, &update);
                SignInEvent::CounterReset(Ok(1))
            }
            SignInAction::IncrementCounter { .. } => {
                db.user.failed_login_attempts += 1;
                SignInEvent::CounterIncremented(Ok(1))
            }
            SignInAction::ReadUser { .. } => SignInEvent::CounterRead(Ok(db.user.decrypt(&db.dek.dek).unwrap())),
            SignInAction::LockUser { update, email, .. } => {
                db.warnings.push(email);
                apply(&mut db.user, &update);
                SignInEvent::LockoutStored(Ok(1))
            }
            SignInAction::Finish { result } => return result,
        };
        let (next_state, next_action) = req.step(st, event);
        st = next_state;
        action = next_action;
    }
}

#[test]
fn sign_in_opens_a_session_and_clears_the_counter() {
    let mut db = sign_up();
    db.user.failed_login_attempts = 3;
    let r = sign_in(&mut db, "pass1234", NOW).unwrap();
    assert_eq!(r.message, "Signin successful");
    assert_eq!(r.email, "a@b.co");
    assert_eq!(r.session.id_token, format!("id.{}", NOW));
    assert_eq!(db.user.failed_login_attempts, 0);
    assert_eq!(db.sessions.len(), 1);
    let stored = db.sessions[0].decrypt(&db.dek.dek).unwrap();
    assert_eq!(stored.user_agent, "ua/1");
    assert!(!stored.is_revoked);
}

#[test]
fn fifth_wrong_password_blocks_and_sixth_attempt_is_refused() {
    let mut db = sign_up();
    for i in 1..=5 {
        let r = sign_in(&mut db, "wrong-pass1", NOW);
        assert!(matches!(r, Err(Error::WrongCredentials { .. })));
        assert_eq!(db.user.failed_login_attempts, i);
        if i < 5 {
            assert_eq!(db.user.blocked_until, None);
        }
    }
    assert_eq!(db.user.blocked_until, Some(NOW + 180_000));
    assert_eq!(db.warnings, vec!["a@b.co".to_string()]);
    let r = sign_in(&mut db, "pass1234", NOW + 10_000);
    let err = r.unwrap_err();
    assert!(matches!(err, Error::UserBlocked { .. }));
    assert_eq!(err.client_status_and_error().0, 401);
    assert!(db.sessions.is_empty());
    assert!(sign_in(&mut db, "pass1234", NOW + 180_000).is_ok());
}

#[test]
fn counter_between_thresholds_only_rises() {
    let mut db = sign_up();
    db.user.failed_login_attempts = 5;
    let r = sign_in(&mut db, "nope", NOW);
    assert!(matches!(r, Err(Error::WrongCredentials { .. })));
    assert_eq!(db.user.failed_login_attempts, 6);
    assert_eq!(db.user.blocked_until, None);
    assert!(db.warnings.is_empty());
}
