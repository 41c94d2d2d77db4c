use flexauth::accounts::UserUpdate;
use flexauth::auth::{Auth, SignUpPayload};
use flexauth::crypto::Encryption;
use flexauth::dek::Dek;
use flexauth::error::Error;
use flexauth::password::verify_password_hash;
use flexauth::recovery::{PasswordResetAction, PasswordResetEvent, PasswordResetRequest};
use flexauth::reset::ForgetPasswordRequest;
use flexauth::user::User;

const NOW: i64 = 1_700_000_000_000;

struct Db {
    user: User,
    dek: Dek,
    links: Vec<ForgetPasswordRequest>,
    mails: Vec<String>,
}

fn setup() -> (Db, String) {
    let p = SignUpPayload {
        name: "A".to_string(),
        email: "a@b.co".to_string(),
        password: "pass1234".to_string(),
        role: "user".to_string(),
    };
    let acct = Auth::new_account(&p, NOW).unwrap();
    let dek = Dek::new(&acct.user.uid, &acct.user.email, &acct.dek, NOW);
    let email = Encryption::encrypt_data("a@b.co", &acct.dek).unwrap();
    let link = ForgetPasswordRequest::new(&email, NOW);
    let id = link.id.clone();
    let db = Db { user: acct.user.encrypt(&acct.dek).unwrap(), dek, links: vec![link], mails: Vec::new() };
    (db, id)
}

fn apply(u: &mut User, up: &UserUpdate) {
    if let Some(p) = &up.password {
        u.password = p.clone();
    }
}

fn reset(db: &mut Db, id: &str, password: &str, now: i64) -> Result<(), Error> {
    let req = PasswordResetRequest {
        id: id.to_string(),
        email: "a@b.co".to_string(),
        password: password.to_string(),
        now,
    };
    let (mut st, mut action) = req.start();
    loop {
        let event = match action {
            PasswordResetAction::FindLink { id } => {
                PasswordResetEvent::LinkFound(Ok(db.links.iter().find(|l| l.id == id).cloned()))
            }
            PasswordResetAction::LoadUser { .. } => {
                PasswordResetEvent::UserLoaded(Ok((db.user.decrypt(&db.dek.dek).unwrap(), db.dek.clone())))
            }
            PasswordResetAction::SpendLink { id, now } => {
                let mut n = 0;
                for l in db.links.iter_mut().filter(|l| l.id == id && !l.is_used && l.valid_till >= now) {
                    l.is_used = true;
                    n += 1;
                }
                PasswordResetEvent::LinkSpent(Ok(n))
            }
            PasswordResetAction::UpdateUser { update, .. } => {
                apply(&mut db.user, &update);
                PasswordResetEvent::UserUpdated(Ok(1))
            }
            PasswordResetAction::Finish { result, notify } => {
                if let Some(name) = notify {
                    db.mails.push(name);
                }
                return result;
            }
        };
        let (next_state, next_action) = req.step(st, event);
        st = next_state;
        action = next_action;
    }
}

fn credential(db: &Db) -> String {
    db.user.decrypt(&db.dek.dek).unwrap().password
}

#[test]
fn reset_link_changes_the_password_once() {
    let (mut db, id) = setup();
    reset(&mut db, &id, "Newpass12", NOW + 1_000).unwrap();
    assert!(verify_password_hash("Newpass12", &credential(&db)));
    assert!(!verify_password_hash("pass1234", &credential(&db)));
    assert_eq!(db.mails, vec!["A".to_string()]);
    let again = reset(&mut db, &id, "Other1234", NOW + 2_000);
    let err = again.unwrap_err();
    assert!(matches!(err, Error::ResetPasswordLinkExpired { .. }));
    assert_eq!(err.client_status_and_error().0, 401);
    assert!(verify_password_hash("Newpass12", &credential(&db)));
}

#[test]
fn expired_or_unknown_links_change_nothing() {
    let (mut db, id) = setup();
    let r = reset(&mut db, &id, "Newpass12", NOW + 600_001);
    assert!(matches!(r, Err(Error::ResetPasswordLinkExpired { .. })));
    let r = reset(&mut db, "no-such-link", "Newpass12", NOW);
    assert!(matches!(r, Err(Error::ResetLinkNotFound { .. })));
    assert!(verify_password_hash("pass1234", &credential(&db)));
    assert!(!db.links[0].is_used);
}

#[test]
fn reset_to_a_weak_password_is_refused_and_keeps_the_link() {
    let (mut db, id) = setup();
    let r = reset(&mut db, &id, "abcdefgh", NOW);
    assert!(matches!(r, Err(Error::InvalidPassword { .. })));
    assert!(!db.links[0].is_used);
    reset(&mut db, &id, "Newpass12", NOW).unwrap();
}
