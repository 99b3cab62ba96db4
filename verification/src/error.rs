//! The errors of the service, and what a client is told of each.

use crate::validation::ValidationError;
use vstd::prelude::*;

verus! {

/// Why a request failed.
#[derive(PartialEq, Debug)]
pub enum AppError {
    BadReq(&'static str),
    Unauthorized(&'static str),
    NotFound,
    Validation(ValidationError),
    InvalidOTP,
    InvalidOAuthProvider,
    UserNotFound,
    UsernameTaken,
    EmailTaken,
    PasswordMismatch,
    SessionExpired,
    /// The headers, name and value, that make the client forget its session.
    InvalidSession(Vec<(String, String)>),
    ServerError,
}

/// The body of an answer that carries nothing but a message.
#[derive(Clone, Copy, PartialEq, Eq, Debug)]
pub struct JsonMsg<'a> {
    pub message: &'a str,
}

impl<'a> JsonMsg<'a> {
    #[inline]
    pub fn new(error: &'a str) -> (r: Self)
        ensures
            r.message@ == error@,
    {
        Self { message: error }
    }
}

/// What a client is told of an error: the status, the headers to set, and
/// the message if there is one.
#[derive(Clone, Debug, PartialEq)]
pub struct ErrorResponse {
    pub status: u16,
    pub headers: Vec<(String, String)>,
    pub message: Option<String>,
}

/// The status that an error is answered with.
pub open spec fn status_of(error: AppError) -> u16 {
    match error {
        AppError::BadReq(_) => 400,
        AppError::Unauthorized(_) => 401,
        AppError::NotFound => 404,
        AppError::Validation(_) => 400,
        AppError::InvalidOTP => 400,
        AppError::InvalidOAuthProvider => 400,
        AppError::UserNotFound => 404,
        AppError::UsernameTaken => 409,
        AppError::EmailTaken => 409,
        AppError::PasswordMismatch => 401,
        AppError::SessionExpired => 401,
        AppError::InvalidSession(_) => 401,
        AppError::ServerError => 500,
    }
}

/// The message that an error is answered with; `NotFound` has none.
pub open spec fn message_of(error: AppError) -> Option<Seq<char>> {
    match error {
        AppError::BadReq(message) => Some(message@),
        AppError::Unauthorized(message) => Some(message@),
        AppError::NotFound => None,
        AppError::Validation(reason) => Some(crate::validation::message_of(reason@)),
        AppError::InvalidOTP => Some("Invalid OTP"@),
        AppError::InvalidOAuthProvider => Some("Invalid OAuth Provider"@),
        AppError::UserNotFound => Some("User not found"@),
        AppError::UsernameTaken => Some("Username already taken"@),
        AppError::EmailTaken => Some("Email already taken"@),
        AppError::PasswordMismatch => Some("Password didn't match"@),
        AppError::SessionExpired => Some("Your session has expired"@),
        AppError::InvalidSession(_) => Some("Invalid Session"@),
        AppError::ServerError => Some("Something went wrong"@),
    }
}

impl AppError {
    /// What a client is told of the error. Only `InvalidSession` sets
    /// headers: the ones that it carries.
    pub fn into_response(self) -> (r: ErrorResponse)
        ensures
            r.status == status_of(self),
            crate::applications::record::text_of(r.message) == message_of(self),
            match self {
                AppError::InvalidSession(headers) => r.headers == headers,
                _ => r.headers@.len() == 0,
            },
    {
        match self {
            AppError::BadReq(e) => answer(400, e.to_owned()),
            AppError::Unauthorized(e) => answer(401, e.to_owned()),
            AppError::NotFound => ErrorResponse { status: 404, headers: Vec::new(), message: None },
            AppError::Validation(e) => answer(400, e.to_string()),
            AppError::InvalidOTP => answer(400, "Invalid OTP".to_owned()),
            AppError::InvalidOAuthProvider => answer(400, "Invalid OAuth Provider".to_owned()),
            AppError::UserNotFound => answer(404, "User not found".to_owned()),
            AppError::UsernameTaken => answer(409, "Username already taken".to_owned()),
            AppError::EmailTaken => answer(409, "Email already taken".to_owned()),
            AppError::PasswordMismatch => answer(401, "Password didn't match".to_owned()),
            AppError::SessionExpired => answer(401, "Your session has expired".to_owned()),
            AppError::InvalidSession(set_cookies) => ErrorResponse {
                status: 401,
                headers: set_cookies,
                message: Some("Invalid Session".to_owned()),
            },
            AppError::ServerError => answer(500, "Something went wrong".to_owned()),
        }
    }
}

fn answer(status: u16, message: String) -> (r: ErrorResponse)
    ensures
        r.status == status,
        r.headers@.len() == 0,
        r.message == Some(message),
{
    ErrorResponse { status, headers: Vec::new(), message: Some(message) }
}

impl From<ValidationError> for AppError {
    fn from(value: ValidationError) -> (r: Self)
        ensures
            r == AppError::Validation(value),
    {
        Self::Validation(value)
    }
}

impl vstd::std_specs::convert::FromSpecImpl<ValidationError> for AppError {
    open spec fn obeys_from_spec() -> bool {
        true
    }

    open spec fn from_spec(value: ValidationError) -> Self {
        AppError::Validation(value)
    }
}

} // verus!
