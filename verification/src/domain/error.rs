//! Error taxonomy of the authentication engine.

use vstd::prelude::*;

verus! {

/// A malformed caller input, with a human-readable reason.
///
/// Always recoverable by the caller correcting its input.
#[derive(Debug)]
pub struct ValidationError(String);

impl ValidationError {
    pub fn new(message: String) -> (r: Self)
        ensures
            r@ == message@,
    {
        ValidationError(message)
    }

    pub fn as_ref(&self) -> (r: &String)
        ensures
            r@ == self@,
    {
        &self.0
    }
}

impl View for ValidationError {
    type V = Seq<char>;

    closed spec fn view(&self) -> Seq<char> {
        self.0@
    }
}

impl Clone for ValidationError {
    fn clone(&self) -> (r: Self)
        ensures
            r@ == self@,
    {
        ValidationError(self.0.clone())
    }
}

/// The externally visible failure classes of the authentication engine.
///
/// `UnexpectedError` carries a server-side reason that is logged, never
/// shown to the caller; the caller sees only the generic message.
#[derive(Debug)]
pub enum AuthAPIError {
    IncorrectCredentials,
    InvalidToken,
    MissingToken,
    UnexpectedError(String),
    UserAlreadyExists,
    UserNotFound,
    ValidationError(ValidationError),
}

/// The HTTP status that each error class maps to.
pub open spec fn spec_status_code(e: &AuthAPIError) -> u16 {
    match e {
        AuthAPIError::UserAlreadyExists => 409,
        AuthAPIError::ValidationError(_) => 400,
        AuthAPIError::UserNotFound => 404,
        AuthAPIError::IncorrectCredentials => 401,
        AuthAPIError::UnexpectedError(_) => 500,
        AuthAPIError::MissingToken => 400,
        AuthAPIError::InvalidToken => 401,
    }
}

/// The body text that each error class maps to. A validation error
/// carries its reason; an unexpected error never leaks its cause.
pub open spec fn spec_response_message(e: &AuthAPIError) -> Seq<char> {
    match e {
        AuthAPIError::UserAlreadyExists => "User already exists"@,
        AuthAPIError::ValidationError(m) => "Validation error: "@ + m@,
        AuthAPIError::UserNotFound => "User not found"@,
        AuthAPIError::IncorrectCredentials => "Incorrect credentials"@,
        AuthAPIError::UnexpectedError(_) => "Unexpected error"@,
        AuthAPIError::MissingToken => "Missing token"@,
        AuthAPIError::InvalidToken => "Invalid token"@,
    }
}

impl AuthAPIError {
    /// The HTTP status of this error.
    pub fn status_code(&self) -> (r: u16)
        ensures
            r == spec_status_code(self),
    {
        match self {
            AuthAPIError::UserAlreadyExists => 409,
            AuthAPIError::ValidationError(_) => 400,
            AuthAPIError::UserNotFound => 404,
            AuthAPIError::IncorrectCredentials => 401,
            AuthAPIError::UnexpectedError(_) => 500,
            AuthAPIError::MissingToken => 400,
            AuthAPIError::InvalidToken => 401,
        }
    }

    /// The body text sent to the caller for this error.
    pub fn response_message(&self) -> (r: String)
        ensures
            r@ == spec_response_message(self),
    {
        match self {
            AuthAPIError::UserAlreadyExists => "User already exists".to_owned(),
            AuthAPIError::ValidationError(m) => {
                vstd::string::StringExecFns::concat(
                    "Validation error: ".to_owned(),
                    m.as_ref().as_str(),
                )
            },
            AuthAPIError::UserNotFound => "User not found".to_owned(),
            AuthAPIError::IncorrectCredentials => "Incorrect credentials".to_owned(),
            AuthAPIError::UnexpectedError(_) => "Unexpected error".to_owned(),
            AuthAPIError::MissingToken => "Missing token".to_owned(),
            AuthAPIError::InvalidToken => "Invalid token".to_owned(),
        }
    }
}

/// The body of every error response.
pub struct ErrorResponse {
    pub error: String,
}

} // verus!
