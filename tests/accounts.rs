use flexauth::accounts::UserUpdate;
use flexauth::auth::{Auth, SignInPayload, SignUpPayload};
use flexauth::crypto::Encryption;
use flexauth::dek::Dek;
use flexauth::error::{ClientError, Error};
use flexauth::models::{OverviewResponse, UserResponse};
use flexauth::password::verify_password_hash;
use flexauth::reset::{
    ConfirmationAction, ConfirmationEvent, ConfirmationRequest, EmailVerificationRequest, ForgetPasswordRequest,
};
use flexauth::session::{Session, SessionResponse};
use flexauth::tokens::{IDToken, RefreshToken, TokenDecodeError};
use flexauth::user::User;

const KEK: &str = "fedcba9876543210fedcba9876543210.ba9876543210";
const NOW: i64 = 1_700_000_000_000;

fn signup_payload() -> SignUpPayload {
    SignUpPayload {
        name: "A".to_string(),
        email: "a@b.co".to_string(),
        password: "pass1234".to_string(),
        role: "user".to_string(),
    }
}

#[test]
fn sign_up_then_sign_in() {
    let p = signup_payload();
    Auth::validate_sign_up(&p, "ua/1").unwrap();
    let acct = Auth::new_account(&p, NOW).unwrap();
    assert_eq!(acct.user.uid.len(), 36);
    assert_eq!(acct.user.email, "a@b.co");
    assert_ne!(acct.user.password, "pass1234");
    assert!(verify_password_hash("pass1234", &acct.user.password));
    let stored_user = acct.user.encrypt(&acct.dek).unwrap();
    let stored_dek = Dek::new(&acct.user.uid, &acct.user.email, &acct.dek, NOW).encrypt(KEK).unwrap();
    let session = Session::new(&acct.user, "ua/1", "id.tok", "re.tok", NOW);
    let resp = Auth::response("Signup successful", &acct.user, &session, &acct.dek).unwrap();
    assert_eq!(resp.uid, acct.user.uid);
    assert_eq!(resp.session.id_token, "id.tok");
    assert_eq!(resp.session.refresh_token, "re.tok");
    assert_eq!(
        Encryption::decrypt_data(&resp.session.session_id, &acct.dek).unwrap(),
        session.session_id
    );

    let q = SignInPayload { email: "a@b.co".to_string(), password: "pass1234".to_string() };
    Auth::validate_sign_in(&q, "ua/1").unwrap();
    let dek = Dek::from_found(Some(stored_dek), KEK).unwrap();
    let user = stored_user.decrypt(&dek.dek).unwrap();
    Auth::check_credentials(&user, "pass1234", NOW + 1).unwrap();
    let reset = UserUpdate::failed_attempts_reset(NOW + 1);
    assert_eq!(reset.failed_login_attempts, Some(0));
}

#[test]
fn sign_up_validation_order() {
    let mut p = signup_payload();
    p.name = String::new();
    assert!(matches!(Auth::validate_sign_up(&p, "ua/1"), Err(Error::InvalidPayload { .. })));
    let mut p = signup_payload();
    p.email = "not-an-email".to_string();
    assert!(matches!(Auth::validate_sign_up(&p, "ua/1"), Err(Error::InvalidEmail { .. })));
    let mut p = signup_payload();
    p.password = "abcdefgh".to_string();
    assert!(matches!(Auth::validate_sign_up(&p, "ua/1"), Err(Error::InvalidPassword { .. })));
    assert!(matches!(Auth::validate_sign_up(&signup_payload(), ""), Err(Error::InvalidUserAgent { .. })));
}

#[test]
fn sign_in_validation() {
    let q = SignInPayload { email: String::new(), password: "x".to_string() };
    assert!(matches!(Auth::validate_sign_in(&q, "ua"), Err(Error::InvalidPayload { .. })));
    let q = SignInPayload { email: "a@b".to_string(), password: "x".to_string() };
    assert!(matches!(Auth::validate_sign_in(&q, "ua"), Err(Error::InvalidEmail { .. })));
    let q = SignInPayload { email: "a@b.co".to_string(), password: "x".to_string() };
    assert!(matches!(Auth::validate_sign_in(&q, ""), Err(Error::InvalidUserAgent { .. })));
}

#[test]
fn wrong_password_escalates_to_a_block() {
    let acct = Auth::new_account(&signup_payload(), NOW).unwrap();
    let mut user = acct.user.clone();
    for i in 1..=5 {
        let r = Auth::check_credentials(&user, "wrong-pass1", NOW);
        assert!(matches!(r, Err(Error::WrongCredentials { .. })));
        let outcome = User::failed_attempt_outcome(i, NOW);
        user.failed_login_attempts = outcome.attempts;
        if let Some(u) = UserUpdate::lockout(outcome, NOW) {
            user.blocked_until = u.blocked_until;
        }
    }
    assert_eq!(user.blocked_until, Some(NOW + 180_000));
    let r = Auth::check_credentials(&user, "pass1234", NOW + 1_000);
    assert!(matches!(r, Err(Error::UserBlocked { .. })));
    assert!(Auth::check_credentials(&user, "pass1234", NOW + 180_000).is_ok());
}

#[test]
fn password_change_needs_the_old_password() {
    let acct = Auth::new_account(&signup_payload(), NOW).unwrap();
    let r = acct.user.change_password("nope1234", "Newpass12", &acct.dek, NOW);
    assert!(matches!(r, Err(Error::InvalidPassword { .. })));
    let r = acct.user.change_password("pass1234", "short", &acct.dek, NOW);
    assert!(matches!(r, Err(Error::InvalidPassword { .. })));
    let u = acct.user.change_password("pass1234", "Newpass12", &acct.dek, NOW).unwrap();
    let stored = u.password.unwrap();
    let credential = Encryption::decrypt_data(&stored, &acct.dek).unwrap();
    assert!(verify_password_hash("Newpass12", &credential));
    assert!(!verify_password_hash("pass1234", &credential));
    assert_eq!(u.updated_at, Some(NOW));
}

#[test]
fn user_updates_encrypt_their_text() {
    let dek = Dek::generate();
    let r = UserUpdate::role_change("admin", &dek, NOW).unwrap();
    assert_eq!(Encryption::decrypt_data(r.role.as_ref().unwrap(), &dek).unwrap(), "admin");
    assert!(r.name.is_none());
    let n = UserUpdate::name_change("Bea", &dek, NOW).unwrap();
    assert_eq!(Encryption::decrypt_data(n.name.as_ref().unwrap(), &dek).unwrap(), "Bea");
    assert_eq!(UserUpdate::activation_change(false, NOW).is_active, Some(false));
    assert_eq!(UserUpdate::email_verified_change(NOW).email_verified, Some(true));
    assert!(matches!(User::modified(0), Err(Error::UserNotFound { .. })));
    assert!(User::modified(1).is_ok());
}

#[test]
fn reset_link_is_single_use() {
    let mut req = ForgetPasswordRequest::new("encrypted-email", NOW);
    assert_eq!(req.valid_till, NOW + 600_000);
    assert!(!req.is_used);
    assert!(ForgetPasswordRequest::check(Some(&req), NOW + 1).is_ok());
    req.is_used = true;
    let err = ForgetPasswordRequest::check(Some(&req), NOW + 2).unwrap_err();
    assert!(matches!(err, Error::ResetPasswordLinkExpired { .. }));
    assert_eq!(err.client_status_and_error(), (401, ClientError::RESET_PASSWORD_LINK_EXPIRED));
}

#[test]
fn reset_link_expires_after_ten_minutes() {
    let req = ForgetPasswordRequest::new("encrypted-email", NOW);
    assert!(ForgetPasswordRequest::check(Some(&req), NOW + 600_000).is_ok());
    let r = ForgetPasswordRequest::check(Some(&req), NOW + 600_001);
    assert!(matches!(r, Err(Error::ResetPasswordLinkExpired { .. })));
    assert!(matches!(ForgetPasswordRequest::check(None, NOW), Err(Error::ResetLinkNotFound { .. })));
    let blank = ForgetPasswordRequest::new("", NOW);
    assert!(matches!(ForgetPasswordRequest::check(Some(&blank), NOW), Err(Error::UserNotFound { .. })));
}

#[test]
fn verification_link_lasts_a_day() {
    let v = EmailVerificationRequest::new("uid", "encrypted-email", NOW);
    assert_eq!(v.expires_at, NOW + 86_400_000);
    assert_eq!(v.req_id.len(), 36);
    assert!(EmailVerificationRequest::check(Some(&v), NOW + 86_400_000).is_ok());
    assert!(matches!(
        EmailVerificationRequest::check(Some(&v), NOW + 86_400_001),
        Err(Error::EmailVerificationLinkExpired { .. })
    ));
    assert!(matches!(EmailVerificationRequest::check(None, NOW), Err(Error::UserNotFound { .. })));
}

#[test]
fn token_claims_and_lifetimes() {
    let u = User::new("uid-1", "A", "a@b.co", "user", "p", 0);
    let t = IDToken::new(&u, "http://localhost:8080", 1_000);
    assert_eq!(t.exp, 1_000 + 3_600);
    assert_eq!(t.token_type, "id");
    let d = t.data.as_ref().unwrap();
    assert_eq!(d.display_name, "A");
    assert_eq!(d.is_active, "true");
    assert_eq!(d.is_email_verified, "false");
    let r = RefreshToken::new("uid-1", "http://localhost:8080", 1_000);
    assert_eq!(r.exp, 1_000 + 45 * 24 * 3_600);
    assert_eq!(r.scope, "get_new_id_token");
}

#[test]
fn token_decoding_outcomes() {
    let u = User::new("uid-1", "A", "a@b.co", "user", "p", 0);
    let t = || IDToken::new(&u, "iss", 1);
    assert!(matches!(IDToken::verify(Ok(t()), None), Ok((_, true))));
    assert!(matches!(IDToken::verify(Err(TokenDecodeError::Expired), Some(Ok(t()))), Ok((_, false))));
    assert!(matches!(IDToken::verify(Err(TokenDecodeError::Expired), None), Err(Error::ServerError { .. })));
    assert!(matches!(
        IDToken::verify(Err(TokenDecodeError::InvalidSignature), None),
        Err(Error::SignatureVerificationError { .. })
    ));
    assert!(matches!(IDToken::verify(Err(TokenDecodeError::Malformed), None), Err(Error::InvalidToken { .. })));
    let r = || RefreshToken::new("uid-1", "iss", 1);
    assert!(RefreshToken::verify(Ok(r())).is_ok());
    assert!(matches!(RefreshToken::verify(Err(TokenDecodeError::Expired)), Err(Error::ExpiredSignature { .. })));
    assert!(matches!(
        RefreshToken::verify(Err(TokenDecodeError::InvalidSignature)),
        Err(Error::SignatureVerificationError { .. })
    ));
    assert!(matches!(RefreshToken::verify(Err(TokenDecodeError::Malformed)), Err(Error::InvalidToken { .. })));
}

#[test]
fn signing_needs_a_readable_key() {
    let r = RefreshToken::new("uid-1", "iss", 1);
    assert!(matches!(r.sign(b"not a pem"), Err(Error::RefreshTokenCreationError { .. })));
    let u = User::new("uid-1", "A", "a@b.co", "user", "p", 0);
    assert!(matches!(IDToken::new(&u, "iss", 1).sign(b""), Err(Error::IdTokenCreationError { .. })));
    let t = IDToken::new(&u, "iss", 1);
    assert!(matches!(flexauth::tokens::require_fresh((t, false)), Err(Error::SessionExpired { .. })));
}

#[test]
fn error_statuses() {
    let m = String::new;
    let cases: Vec<(Error, u16, ClientError)> = vec![
        (Error::InvalidPayload { message: m() }, 400, ClientError::INVALID_PARAMS),
        (Error::InvalidEmail { message: m() }, 400, ClientError::INVALID_PARAMS),
        (Error::InvalidUserAgent { message: m() }, 400, ClientError::INVALID_PARAMS),
        (Error::UserNotFound { message: m() }, 404, ClientError::USER_NOT_FOUND),
        (Error::SessionNotFound { message: m() }, 404, ClientError::SESSION_NOT_FOUND),
        (Error::UserAlreadyExists { message: m() }, 302, ClientError::USER_ALREADY_EXISTS),
        (Error::WrongCredentials { message: m() }, 401, ClientError::WRONG_CREDENTIALS),
        (Error::InvalidPassword { message: m() }, 401, ClientError::INVALID_PASSWORD),
        (Error::UserBlocked { message: m() }, 401, ClientError::USER_BLOCKED),
        (Error::InvalidToken { message: m() }, 401, ClientError::INVALID_TOKEN),
        (Error::SignatureVerificationError { message: m() }, 401, ClientError::SIGNATURE_VERIFICATION_ERROR),
        (Error::ExpiredSignature { message: m() }, 401, ClientError::EXPIRED_SIGNATURE),
        (Error::SessionExpired { message: m() }, 401, ClientError::SESSION_EXPIRED),
        (Error::ActiveSessionExists { message: m() }, 409, ClientError::ACTIVE_SESSION_EXISTS),
        (Error::ResetPasswordLinkExpired { message: m() }, 401, ClientError::RESET_PASSWORD_LINK_EXPIRED),
        (Error::EmailVerificationLinkExpired { message: m() }, 401, ClientError::EMAIL_VERIFICATION_LINK_EXPIRED),
        (Error::KeyNotFound { message: m() }, 500, ClientError::SERVICE_ERROR),
        (Error::ServerError { message: m() }, 500, ClientError::SERVICE_ERROR),
        (Error::CryptoFailure { message: m() }, 500, ClientError::SERVICE_ERROR),
    ];
    for (e, status, kind) in cases {
        assert_eq!(e.client_status_and_error(), (status, kind));
    }
    assert_eq!(ClientError::ACTIVE_SESSION_EXISTS.as_str(), "ACTIVE_SESSION_EXISTS");
}

#[test]
fn overview_counts() {
    let mk = |active: bool, blocked: Option<i64>| UserResponse {
        uid: "u".to_string(),
        name: "n".to_string(),
        role: "r".to_string(),
        email: "e".to_string(),
        email_verified: false,
        is_active: active,
        blocked_until: blocked,
        created_at: None,
        updated_at: None,
    };
    let users = vec![mk(true, None), mk(false, Some(NOW + 1)), mk(true, Some(NOW - 1))];
    let sess = |revoked: bool| SessionResponse {
        uid: "u".to_string(),
        session_id: "s".to_string(),
        email: "e".to_string(),
        user_agent: "ua".to_string(),
        is_revoked: revoked,
        created_at: 0,
        updated_at: 0,
    };
    let sessions = vec![sess(true), sess(false), sess(false)];
    let o = OverviewResponse::from_records(&users, &sessions, NOW);
    assert_eq!(o.user_count, 3);
    assert_eq!(o.active_user_count, 2);
    assert_eq!(o.inactive_user_count, 1);
    assert_eq!(o.blocked_user_count, 1);
    assert_eq!(o.revoked_session_count, 1);
    assert_eq!(o.active_session_count, 2);
}

#[test]
fn email_confirmation_marks_the_user_and_spends_the_link() {
    let acct = Auth::new_account(&signup_payload(), NOW).unwrap();
    let dek = Dek::new(&acct.user.uid, &acct.user.email, &acct.dek, NOW);
    let email = Encryption::encrypt_data("a@b.co", &acct.dek).unwrap();
    let mut pending = vec![EmailVerificationRequest::new(&acct.user.uid, &email, NOW)];
    let id = pending[0].req_id.clone();
    let mut user = acct.user.clone();
    let run = |pending: &mut Vec<EmailVerificationRequest>, user: &mut User, now: i64| {
        let req = ConfirmationRequest { req_id: id.clone(), now };
        let (mut st, mut action) = req.start();
        loop {
            let event = match action {
                ConfirmationAction::FindRequest { req_id } => {
                    ConfirmationEvent::RequestFound(Ok(pending.iter().find(|p| p.req_id == req_id).cloned()))
                }
                ConfirmationAction::UpdateUser { update, .. } => {
                    if let Some(v) = update.email_verified {
                        user.email_verified = v;
                    }
                    ConfirmationEvent::UserMarked(Ok(1))
                }
                ConfirmationAction::DeleteRequest { req_id } => {
                    pending.retain(|p| p.req_id != req_id);
                    ConfirmationEvent::RequestDeleted(Ok(()))
                }
                ConfirmationAction::LoadDek { .. } => ConfirmationEvent::DekLoaded(Ok(dek.clone())),
                ConfirmationAction::Finish { result, notify } => return (result, notify),
            };
            let (next_state, next_action) = req.step(st, event);
            st = next_state;
            action = next_action;
        }
    };
    let late = run(&mut pending, &mut user, NOW + 86_400_001);
    assert!(matches!(late.0, Err(Error::EmailVerificationLinkExpired { .. })));
    assert!(!user.email_verified);
    let (result, notify) = run(&mut pending, &mut user, NOW + 1_000);
    assert_eq!(result.unwrap(), id);
    assert_eq!(notify.as_deref(), Some("a@b.co"));
    assert!(user.email_verified);
    assert!(pending.is_empty());
    let (again, _) = run(&mut pending, &mut user, NOW + 2_000);
    assert!(matches!(again, Err(Error::UserNotFound { .. })));
}
