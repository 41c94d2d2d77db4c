use flexauth::dek::Dek;
use flexauth::error::Error;
use flexauth::models::{
    ResetPasswordPayload, RevokeSessionsPayload, SessionRefreshPayload, ToggleUserActivationStatusPayload,
    UpdateUserRolePayload, VerifySession,
};
use flexauth::requests::ensure_email_free;
use flexauth::reset::ForgetPasswordRequest;

fn refresh_payload() -> SessionRefreshPayload {
    SessionRefreshPayload {
        uid: "u".to_string(),
        session_id: "s".to_string(),
        id_token: "i".to_string(),
        refresh_token: "r".to_string(),
    }
}

#[test]
fn refresh_payload_needs_every_field_and_a_user_agent() {
    assert!(refresh_payload().validate("ua/1").is_ok());
    let mut p = refresh_payload();
    p.refresh_token.clear();
    assert!(matches!(p.validate("ua/1"), Err(Error::InvalidPayload { .. })));
    assert!(matches!(refresh_payload().validate(""), Err(Error::InvalidUserAgent { .. })));
}

#[test]
fn simple_payloads_need_their_fields() {
    assert!(matches!(VerifySession { token: String::new() }.validate(), Err(Error::InvalidPayload { .. })));
    assert!(VerifySession { token: "t".to_string() }.validate().is_ok());
    let r = RevokeSessionsPayload { uid: "u".to_string(), session_id: String::new() };
    assert!(matches!(r.validate(), Err(Error::InvalidPayload { .. })));
    let p = ResetPasswordPayload {
        email: "a@b.co".to_string(),
        old_password: "pass1234".to_string(),
        new_password: String::new(),
    };
    assert!(matches!(p.validate(), Err(Error::InvalidPayload { .. })));
}

#[test]
fn role_update_needs_a_well_formed_email() {
    let ok = UpdateUserRolePayload { role: "admin".to_string(), email: "a@b.co".to_string() };
    assert!(ok.validate().is_ok());
    let bad = UpdateUserRolePayload { role: "admin".to_string(), email: "a@b".to_string() };
    assert!(matches!(bad.validate(), Err(Error::InvalidEmail { .. })));
    let empty = UpdateUserRolePayload { role: String::new(), email: "a@b.co".to_string() };
    assert!(matches!(empty.validate(), Err(Error::InvalidPayload { .. })));
}

#[test]
fn toggle_needs_a_status() {
    let p = ToggleUserActivationStatusPayload { is_active: Some(false), email: "a@b.co".to_string() };
    assert_eq!(p.validate().unwrap(), false);
    let p = ToggleUserActivationStatusPayload { is_active: None, email: "a@b.co".to_string() };
    assert!(matches!(p.validate(), Err(Error::InvalidPayload { .. })));
}

#[test]
fn sign_up_refuses_a_taken_email() {
    let found = Dek::new("u", "a@b.co", "k", 0);
    assert!(matches!(ensure_email_free(Ok(found)), Err(Error::UserAlreadyExists { .. })));
    assert!(ensure_email_free(Err(Error::KeyNotFound { message: String::new() })).is_ok());
    assert!(matches!(
        ensure_email_free(Err(Error::ServerError { message: String::new() })),
        Err(Error::ServerError { .. })
    ));
}

#[test]
fn spending_a_link_that_matched_nothing_is_expired() {
    assert!(matches!(ForgetPasswordRequest::spent(0), Err(Error::ResetPasswordLinkExpired { .. })));
    assert!(ForgetPasswordRequest::spent(1).is_ok());
}
