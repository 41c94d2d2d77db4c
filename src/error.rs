use vstd::prelude::*;

verus! {

/// Every failure the service can report.
#[derive(Clone, Debug)]
pub enum Error {
    InvalidPayload { message: String },
    UserNotFound { message: String },
    UserAlreadyExists { message: String },
    WrongCredentials { message: String },
    UserBlocked { message: String },
    InvalidPassword { message: String },
    ResetPasswordLinkExpired { message: String },
    ResetLinkNotFound { message: String },
    InvalidToken { message: String },
    RefreshTokenCreationError { message: String },
    IdTokenCreationError { message: String },
    PublicKeyLoadError { message: String },
    PrivateKeyLoadError { message: String },
    SignatureVerificationError { message: String },
    ExpiredSignature { message: String },
    SessionExpired { message: String },
    ActiveSessionExists { message: String },
    SessionNotFound { message: String },
    EmailVerificationLinkExpired { message: String },
    BlockRequestLinkExpired { message: String },
    InvalidEmail { message: String },
    InvalidUserAgent { message: String },
    KeyNotFound { message: String },
    CryptoFailure { message: String },
    ServerError { message: String },
}

/// The error kind shown to a client, without any detail.
#[allow(non_camel_case_types)]
#[derive(Clone, Copy, Debug, PartialEq, Eq, Structural)]
pub enum ClientError {
    USER_NOT_FOUND,
    INVALID_PARAMS,
    SERVICE_ERROR,
    USER_ALREADY_EXISTS,
    INVALID_PASSWORD,
    WRONG_CREDENTIALS,
    USER_BLOCKED,
    RESET_PASSWORD_LINK_EXPIRED,
    RESET_LINK_NOT_FOUND,
    INVALID_TOKEN,
    SIGNATURE_VERIFICATION_ERROR,
    EXPIRED_SIGNATURE,
    SESSION_EXPIRED,
    ACTIVE_SESSION_EXISTS,
    SESSION_NOT_FOUND,
    EMAIL_VERIFICATION_LINK_EXPIRED,
    BLOCK_REQUEST_LINK_EXPIRED,
}

/// HTTP status under which an error reaches the client.
pub open spec fn status_of(e: Error) -> u16 {
    match e {
        Error::InvalidPayload { .. } => 400,
        Error::InvalidEmail { .. } => 400,
        Error::InvalidUserAgent { .. } => 400,
        Error::UserNotFound { .. } => 404,
        Error::SessionNotFound { .. } => 404,
        Error::ResetLinkNotFound { .. } => 404,
        Error::UserAlreadyExists { .. } => 302,
        Error::InvalidPassword { .. } => 401,
        Error::WrongCredentials { .. } => 401,
        Error::UserBlocked { .. } => 401,
        Error::ResetPasswordLinkExpired { .. } => 401,
        Error::SignatureVerificationError { .. } => 401,
        Error::ExpiredSignature { .. } => 401,
        Error::InvalidToken { .. } => 401,
        Error::SessionExpired { .. } => 401,
        Error::EmailVerificationLinkExpired { .. } => 401,
        Error::BlockRequestLinkExpired { .. } => 401,
        Error::ActiveSessionExists { .. } => 409,
        _ => 500,
    }
}

/// Client-facing kind of an error.
pub open spec fn client_error_of(e: Error) -> ClientError {
    match e {
        Error::InvalidPayload { .. } => ClientError::INVALID_PARAMS,
        Error::InvalidEmail { .. } => ClientError::INVALID_PARAMS,
        Error::InvalidUserAgent { .. } => ClientError::INVALID_PARAMS,
        Error::UserNotFound { .. } => ClientError::USER_NOT_FOUND,
        Error::SessionNotFound { .. } => ClientError::SESSION_NOT_FOUND,
        Error::ResetLinkNotFound { .. } => ClientError::RESET_LINK_NOT_FOUND,
        Error::UserAlreadyExists { .. } => ClientError::USER_ALREADY_EXISTS,
        Error::InvalidPassword { .. } => ClientError::INVALID_PASSWORD,
        Error::WrongCredentials { .. } => ClientError::WRONG_CREDENTIALS,
        Error::UserBlocked { .. } => ClientError::USER_BLOCKED,
        Error::ResetPasswordLinkExpired { .. } => ClientError::RESET_PASSWORD_LINK_EXPIRED,
        Error::SignatureVerificationError { .. } => ClientError::SIGNATURE_VERIFICATION_ERROR,
        Error::ExpiredSignature { .. } => ClientError::EXPIRED_SIGNATURE,
        Error::InvalidToken { .. } => ClientError::INVALID_TOKEN,
        Error::SessionExpired { .. } => ClientError::SESSION_EXPIRED,
        Error::EmailVerificationLinkExpired { .. } => ClientError::EMAIL_VERIFICATION_LINK_EXPIRED,
        Error::BlockRequestLinkExpired { .. } => ClientError::BLOCK_REQUEST_LINK_EXPIRED,
        Error::ActiveSessionExists { .. } => ClientError::ACTIVE_SESSION_EXISTS,
        _ => ClientError::SERVICE_ERROR,
    }
}

/// The name under which a client error kind is reported.
pub open spec fn client_error_name(c: ClientError) -> &'static str {
    match c {
        ClientError::USER_NOT_FOUND => "USER_NOT_FOUND",
        ClientError::INVALID_PARAMS => "INVALID_PARAMS",
        ClientError::SERVICE_ERROR => "SERVICE_ERROR",
        ClientError::USER_ALREADY_EXISTS => "USER_ALREADY_EXISTS",
        ClientError::INVALID_PASSWORD => "INVALID_PASSWORD",
        ClientError::WRONG_CREDENTIALS => "WRONG_CREDENTIALS",
        ClientError::USER_BLOCKED => "USER_BLOCKED",
        ClientError::RESET_PASSWORD_LINK_EXPIRED => "RESET_PASSWORD_LINK_EXPIRED",
        ClientError::RESET_LINK_NOT_FOUND => "RESET_LINK_NOT_FOUND",
        ClientError::INVALID_TOKEN => "INVALID_TOKEN",
        ClientError::SIGNATURE_VERIFICATION_ERROR => "SIGNATURE_VERIFICATION_ERROR",
        ClientError::EXPIRED_SIGNATURE => "EXPIRED_SIGNATURE",
        ClientError::SESSION_EXPIRED => "SESSION_EXPIRED",
        ClientError::ACTIVE_SESSION_EXISTS => "ACTIVE_SESSION_EXISTS",
        ClientError::SESSION_NOT_FOUND => "SESSION_NOT_FOUND",
        ClientError::EMAIL_VERIFICATION_LINK_EXPIRED => "EMAIL_VERIFICATION_LINK_EXPIRED",
        ClientError::BLOCK_REQUEST_LINK_EXPIRED => "BLOCK_REQUEST_LINK_EXPIRED",
    }
}

impl ClientError {
    /// The kind's name, as it appears in an error response.
    pub fn as_str(&self) -> (r: &'static str)
        ensures
            r == client_error_name(*self),
    {
        match self {
            ClientError::USER_NOT_FOUND => "USER_NOT_FOUND",
            ClientError::INVALID_PARAMS => "INVALID_PARAMS",
            ClientError::SERVICE_ERROR => "SERVICE_ERROR",
            ClientError::USER_ALREADY_EXISTS => "USER_ALREADY_EXISTS",
            ClientError::INVALID_PASSWORD => "INVALID_PASSWORD",
            ClientError::WRONG_CREDENTIALS => "WRONG_CREDENTIALS",
            ClientError::USER_BLOCKED => "USER_BLOCKED",
            ClientError::RESET_PASSWORD_LINK_EXPIRED => "RESET_PASSWORD_LINK_EXPIRED",
            ClientError::RESET_LINK_NOT_FOUND => "RESET_LINK_NOT_FOUND",
            ClientError::INVALID_TOKEN => "INVALID_TOKEN",
            ClientError::SIGNATURE_VERIFICATION_ERROR => "SIGNATURE_VERIFICATION_ERROR",
            ClientError::EXPIRED_SIGNATURE => "EXPIRED_SIGNATURE",
            ClientError::SESSION_EXPIRED => "SESSION_EXPIRED",
            ClientError::ACTIVE_SESSION_EXISTS => "ACTIVE_SESSION_EXISTS",
            ClientError::SESSION_NOT_FOUND => "SESSION_NOT_FOUND",
            ClientError::EMAIL_VERIFICATION_LINK_EXPIRED => "EMAIL_VERIFICATION_LINK_EXPIRED",
            ClientError::BLOCK_REQUEST_LINK_EXPIRED => "BLOCK_REQUEST_LINK_EXPIRED",
        }
    }
}

impl Error {
    /// The HTTP status and the client-facing kind under which this error is reported.
    pub fn client_status_and_error(&self) -> (r: (u16, ClientError))
        ensures
            r.0 == status_of(*self),
            r.1 == client_error_of(*self),
    {
        match self {
            Error::InvalidPayload { .. } => (400, ClientError::INVALID_PARAMS),
            Error::InvalidEmail { .. } => (400, ClientError::INVALID_PARAMS),
            Error::InvalidUserAgent { .. } => (400, ClientError::INVALID_PARAMS),
            Error::UserNotFound { .. } => (404, ClientError::USER_NOT_FOUND),
            Error::SessionNotFound { .. } => (404, ClientError::SESSION_NOT_FOUND),
            Error::ResetLinkNotFound { .. } => (404, ClientError::RESET_LINK_NOT_FOUND),
            Error::UserAlreadyExists { .. } => (302, ClientError::USER_ALREADY_EXISTS),
            Error::InvalidPassword { .. } => (401, ClientError::INVALID_PASSWORD),
            Error::WrongCredentials { .. } => (401, ClientError::WRONG_CREDENTIALS),
            Error::UserBlocked { .. } => (401, ClientError::USER_BLOCKED),
            Error::ResetPasswordLinkExpired { .. } => (401, ClientError::RESET_PASSWORD_LINK_EXPIRED),
            Error::SignatureVerificationError { .. } => (401, ClientError::SIGNATURE_VERIFICATION_ERROR),
            Error::ExpiredSignature { .. } => (401, ClientError::EXPIRED_SIGNATURE),
            Error::InvalidToken { .. } => (401, ClientError::INVALID_TOKEN),
            Error::SessionExpired { .. } => (401, ClientError::SESSION_EXPIRED),
            Error::EmailVerificationLinkExpired { .. } => (401, ClientError::EMAIL_VERIFICATION_LINK_EXPIRED),
            Error::BlockRequestLinkExpired { .. } => (401, ClientError::BLOCK_REQUEST_LINK_EXPIRED),
            Error::ActiveSessionExists { .. } => (409, ClientError::ACTIVE_SESSION_EXISTS),
            _ => (500, ClientError::SERVICE_ERROR),
        }
    }
}

} // verus!
