use vstd::prelude::*;
use crate::dek::Dek;
use crate::error::Error;
use crate::models::{
    DeleteAllSessionsPayload, DeleteSessionsPayload, ForgetPasswordRequestPayload,
    ForgetPasswordResetPayload, ResetPasswordPayload, RevokeAllSessionsPayload,
    RevokeSessionsPayload, SessionDetailsPayload, SessionRefreshPayload,
    ToggleUserActivationStatusPayload, UpdateUserPayload, UpdateUserRolePayload, UserEmailPayload,
    UserIdPayload, VerifySession,
};
use crate::validation::{form_email_shape, Validation};

verus! {

fn invalid_payload() -> (r: Error)
    ensures
        r matches Error::InvalidPayload { .. },
{
    Error::InvalidPayload { message: "Invalid payload".to_string() }
}

fn required(fields: &[&str]) -> (r: bool)
    ensures
        r == forall|i: int| 0 <= i < fields@.len() ==> (#[trigger] fields@[i])@.len() > 0,
{
    let mut i: usize = 0;
    while i < fields.len()
        invariant
            i <= fields@.len(),
            forall|j: int| 0 <= j < i ==> (#[trigger] fields@[j])@.len() > 0,
        decreases fields@.len() - i,
    {
        if fields[i].is_empty() {
            return false;
        }
        i = i + 1;
    }
    true
}

impl VerifySession {
    /// A token must be given.
    pub fn validate(&self) -> (r: Result<(), Error>)
        ensures
            self.token@.len() == 0 ==> r matches Err(Error::InvalidPayload { .. }),
            self.token@.len() > 0 ==> r is Ok,
    {
        if self.token.as_str().is_empty() {
            Err(invalid_payload())
        } else {
            Ok(())
        }
    }
}

impl SessionRefreshPayload {
    /// All four fields must be given, and a user agent.
    pub fn validate(&self, user_agent: &str) -> (r: Result<(), Error>)
        ensures
            if self.uid@.len() == 0 || self.session_id@.len() == 0 || self.id_token@.len() == 0
                || self.refresh_token@.len() == 0 {
                r matches Err(Error::InvalidPayload { .. })
            } else if user_agent@.len() == 0 {
                r matches Err(Error::InvalidUserAgent { .. })
            } else {
                r is Ok
            },
    {
        let fields = [
            self.uid.as_str(),
            self.session_id.as_str(),
            self.id_token.as_str(),
            self.refresh_token.as_str(),
        ];
        if !required(&fields) {
            proof {
                assert(fields@[0]@ == self.uid@ && fields@[1]@ == self.session_id@);
                assert(fields@[2]@ == self.id_token@ && fields@[3]@ == self.refresh_token@);
            }
            return Err(invalid_payload());
        }
        proof {
            assert(fields@[0]@ == self.uid@ && fields@[1]@ == self.session_id@);
            assert(fields@[2]@ == self.id_token@ && fields@[3]@ == self.refresh_token@);
        }
        if user_agent.is_empty() {
            return Err(Error::InvalidUserAgent { message: "Invalid user agent".to_string() });
        }
        Ok(())
    }
}

/// Both fields must be given.
fn check_both_given(a: &String, b: &String) -> (r: Result<(), Error>)
    ensures
        a@.len() == 0 || b@.len() == 0 ==> r matches Err(Error::InvalidPayload { .. }),
        a@.len() > 0 && b@.len() > 0 ==> r is Ok,
{
    if a.as_str().is_empty() || b.as_str().is_empty() {
        Err(invalid_payload())
    } else {
        Ok(())
    }
}

/// The field must be given.
fn check_given(field: &String) -> (r: Result<(), Error>)
    ensures
        field@.len() == 0 ==> r matches Err(Error::InvalidPayload { .. }),
        field@.len() > 0 ==> r is Ok,
{
    if field.as_str().is_empty() {
        Err(invalid_payload())
    } else {
        Ok(())
    }
}

impl RevokeSessionsPayload {
    /// Both the uid and the session id must be given.
    pub fn validate(&self) -> (r: Result<(), Error>)
        ensures
            self.uid@.len() == 0 || self.session_id@.len() == 0 ==> r matches Err(
                Error::InvalidPayload { .. },
            ),
            self.uid@.len() > 0 && self.session_id@.len() > 0 ==> r is Ok,
    {
        check_both_given(&self.uid, &self.session_id)
    }
}

impl DeleteSessionsPayload {
    /// Both the uid and the session id must be given.
    pub fn validate(&self) -> (r: Result<(), Error>)
        ensures
            self.uid@.len() == 0 || self.session_id@.len() == 0 ==> r matches Err(
                Error::InvalidPayload { .. },
            ),
            self.uid@.len() > 0 && self.session_id@.len() > 0 ==> r is Ok,
    {
        check_both_given(&self.uid, &self.session_id)
    }
}

impl SessionDetailsPayload {
    /// Both the uid and the session id must be given.
    pub fn validate(&self) -> (r: Result<(), Error>)
        ensures
            self.uid@.len() == 0 || self.session_id@.len() == 0 ==> r matches Err(
                Error::InvalidPayload { .. },
            ),
            self.uid@.len() > 0 && self.session_id@.len() > 0 ==> r is Ok,
    {
        check_both_given(&self.uid, &self.session_id)
    }
}

impl RevokeAllSessionsPayload {
    /// A uid must be given.
    pub fn validate(&self) -> (r: Result<(), Error>)
        ensures
            self.uid@.len() == 0 ==> r matches Err(Error::InvalidPayload { .. }),
            self.uid@.len() > 0 ==> r is Ok,
    {
        check_given(&self.uid)
    }
}

impl DeleteAllSessionsPayload {
    /// A uid must be given.
    pub fn validate(&self) -> (r: Result<(), Error>)
        ensures
            self.uid@.len() == 0 ==> r matches Err(Error::InvalidPayload { .. }),
            self.uid@.len() > 0 ==> r is Ok,
    {
        check_given(&self.uid)
    }
}

impl UserIdPayload {
    /// A uid must be given.
    pub fn validate(&self) -> (r: Result<(), Error>)
        ensures
            self.uid@.len() == 0 ==> r matches Err(Error::InvalidPayload { .. }),
            self.uid@.len() > 0 ==> r is Ok,
    {
        check_given(&self.uid)
    }
}

impl UserEmailPayload {
    /// An email must be given.
    pub fn validate(&self) -> (r: Result<(), Error>)
        ensures
            self.email@.len() == 0 ==> r matches Err(Error::InvalidPayload { .. }),
            self.email@.len() > 0 ==> r is Ok,
    {
        check_given(&self.email)
    }
}

impl ForgetPasswordRequestPayload {
    /// An email must be given.
    pub fn validate(&self) -> (r: Result<(), Error>)
        ensures
            self.email@.len() == 0 ==> r matches Err(Error::InvalidPayload { .. }),
            self.email@.len() > 0 ==> r is Ok,
    {
        check_given(&self.email)
    }
}

impl ForgetPasswordResetPayload {
    /// Email and new password must be given.
    pub fn validate(&self) -> (r: Result<(), Error>)
        ensures
            self.email@.len() == 0 || self.password@.len() == 0 ==> r matches Err(
                Error::InvalidPayload { .. },
            ),
            self.email@.len() > 0 && self.password@.len() > 0 ==> r is Ok,
    {
        check_both_given(&self.email, &self.password)
    }
}

impl ResetPasswordPayload {
    /// Email, old and new password must be given.
    pub fn validate(&self) -> (r: Result<(), Error>)
        ensures
            self.email@.len() == 0 || self.old_password@.len() == 0 || self.new_password@.len()
                == 0 ==> r matches Err(Error::InvalidPayload { .. }),
            self.email@.len() > 0 && self.old_password@.len() > 0 && self.new_password@.len() > 0
                ==> r is Ok,
    {
        if self.email.as_str().is_empty() || self.old_password.as_str().is_empty()
            || self.new_password.as_str().is_empty() {
            Err(invalid_payload())
        } else {
            Ok(())
        }
    }
}

impl UpdateUserRolePayload {
    /// Email and role must be given, the email well formed.
    pub fn validate(&self) -> (r: Result<(), Error>)
        ensures
            if self.email@.len() == 0 || self.role@.len() == 0 {
                r matches Err(Error::InvalidPayload { .. })
            } else if !form_email_shape(self.email@) {
                r matches Err(Error::InvalidEmail { .. })
            } else {
                r is Ok
            },
    {
        check_both_given(&self.email, &self.role)?;
        if !Validation::email(self.email.as_str()) {
            return Err(Error::InvalidEmail { message: "Invalid email".to_string() });
        }
        Ok(())
    }
}

impl UpdateUserPayload {
    /// Email and name must be given, the email well formed.
    pub fn validate(&self) -> (r: Result<(), Error>)
        ensures
            if self.email@.len() == 0 || self.name@.len() == 0 {
                r matches Err(Error::InvalidPayload { .. })
            } else if !form_email_shape(self.email@) {
                r matches Err(Error::InvalidEmail { .. })
            } else {
                r is Ok
            },
    {
        check_both_given(&self.email, &self.name)?;
        if !Validation::email(self.email.as_str()) {
            return Err(Error::InvalidEmail { message: "Invalid email".to_string() });
        }
        Ok(())
    }
}

impl ToggleUserActivationStatusPayload {
    /// An email and the new status must be given; the status is returned.
    pub fn validate(&self) -> (r: Result<bool, Error>)
        ensures
            match self.is_active {
                Some(b) => if self.email@.len() == 0 {
                    r matches Err(Error::InvalidPayload { .. })
                } else {
                    r == Ok::<bool, Error>(b)
                },
                None => r matches Err(Error::InvalidPayload { .. }),
            },
    {
        match self.is_active {
            Some(b) => {
                check_given(&self.email)?;
                Ok(b)
            },
            None => Err(invalid_payload()),
        }
    }
}

/// Sign-up is refused when a key record is already indexed under the email: a found record
/// means the email is taken, a missing one lets sign-up go on, any other failure is passed on.
pub fn ensure_email_free(lookup: Result<Dek, Error>) -> (r: Result<(), Error>)
    ensures
        lookup is Ok ==> r matches Err(Error::UserAlreadyExists { .. }),
        lookup matches Err(Error::KeyNotFound { .. }) ==> r is Ok,
        lookup is Err && !(lookup->Err_0 matches Error::KeyNotFound { .. }) ==> r == Err::<(), Error>(
            lookup->Err_0,
        ),
{
    match lookup {
        Ok(_) => Err(Error::UserAlreadyExists { message: "User already exists".to_string() }),
        Err(Error::KeyNotFound { .. }) => Ok(()),
        Err(e) => Err(e),
    }
}

} // verus!
