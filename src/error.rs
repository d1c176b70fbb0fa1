use crate::email::ValidationError;
use vstd::prelude::*;

verus! {

/// The errors of the authentication API. Validation failures, failed
/// credentials and token failures each collapse to one variant, so the cause
/// inside a store does not reach the caller.
#[derive(Debug, Clone, Copy, PartialEq, Eq, Structural)]
pub enum AuthAPIError {
    UserAlreadyExists,
    InvalidCredentials,
    IncorrectCredentials,
    MissingToken,
    InvalidToken,
    UnexpectedError,
}

pub open spec fn status_of(e: AuthAPIError) -> u16 {
    match e {
        AuthAPIError::UserAlreadyExists => 409,
        AuthAPIError::InvalidCredentials => 400,
        AuthAPIError::MissingToken => 400,
        AuthAPIError::InvalidToken => 401,
        AuthAPIError::UnexpectedError => 500,
        AuthAPIError::IncorrectCredentials => 401,
    }
}

pub open spec fn message_of(e: AuthAPIError) -> Seq<char> {
    match e {
        AuthAPIError::UserAlreadyExists => "User already exists"@,
        AuthAPIError::InvalidCredentials => "Invalid credentials"@,
        AuthAPIError::MissingToken => "Missing a token"@,
        AuthAPIError::InvalidToken => "Token is invalid"@,
        AuthAPIError::UnexpectedError => "Unexpected error"@,
        AuthAPIError::IncorrectCredentials => "Incorrect credentials"@,
    }
}

/// The body of an error response.
pub struct ErrorResponse {
    pub error: String,
}

impl AuthAPIError {
    /// The HTTP status that answers this error.
    pub fn status_code(&self) -> (r: u16)
        ensures
            r == status_of(*self),
    {
        match self {
            AuthAPIError::UserAlreadyExists => 409,
            AuthAPIError::InvalidCredentials => 400,
            AuthAPIError::MissingToken => 400,
            AuthAPIError::InvalidToken => 401,
            AuthAPIError::UnexpectedError => 500,
            AuthAPIError::IncorrectCredentials => 401,
        }
    }

    /// The status and body that answer this error; the body says no more
    /// than the variant.
    pub fn into_response(&self) -> (r: (u16, ErrorResponse))
        ensures
            r.0 == status_of(*self),
            r.1.error@ == message_of(*self),
    {
        let text = match self {
            AuthAPIError::UserAlreadyExists => "User already exists",
            AuthAPIError::InvalidCredentials => "Invalid credentials",
            AuthAPIError::MissingToken => "Missing a token",
            AuthAPIError::InvalidToken => "Token is invalid",
            AuthAPIError::UnexpectedError => "Unexpected error",
            AuthAPIError::IncorrectCredentials => "Incorrect credentials",
        };
        (self.status_code(), ErrorResponse { error: text.to_owned() })
    }
}

/// A malformed value in a request counts as incorrect credentials.
pub fn validation_to_incorrect_credentials_error(e: ValidationError) -> (r: AuthAPIError)
    ensures
        r == AuthAPIError::IncorrectCredentials,
{
    AuthAPIError::IncorrectCredentials
}

} // verus!
