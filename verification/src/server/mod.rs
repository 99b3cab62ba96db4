//! What the request handlers decide, apart from the transport.

pub mod auth;
pub mod settings;
pub mod user;

use crate::error::AppError;
use crate::mail::Mail;
use crate::strings::same_text;
use crate::validation::{ValidationError, ValidationErrorView};
use vstd::prelude::*;

verus! {

/// What a step answers with when it went well: the mail to send and the
/// message for the client.
#[derive(Clone, Debug, PartialEq)]
pub struct Accepted {
    pub mail: Mail,
    pub message: String,
}

/// Whether a result is the validation error that a check gave.
pub open spec fn turned_down<T>(r: Result<T, AppError>, reason: ValidationErrorView) -> bool {
    r matches Err(AppError::Validation(error)) && error@ == reason
}

/// Whether a check passed, or a result is the validation error that it gave.
pub open spec fn follows<T>(r: Result<T, AppError>, checked: Result<(), ValidationErrorView>) -> bool {
    match checked {
        Ok(()) => r is Ok,
        Err(reason) => turned_down(r, reason),
    }
}

/// The password that a user gave matches the stored one. An account without
/// a password matches none.
pub open spec fn password_matches(stored: Option<String>, given: Seq<char>) -> bool {
    stored matches Some(password) && password@ == given
}

/// Checks the password that a user gave against the stored one.
pub fn check_password(stored: &Option<String>, given: &str) -> (r: Result<(), AppError>)
    ensures
        r == if password_matches(*stored, given@) {
            Ok::<(), AppError>(())
        } else {
            Err(AppError::PasswordMismatch)
        },
{
    match stored {
        Some(password) => {
            if same_text(password.as_str(), given) {
                Ok(())
            } else {
                Err(AppError::PasswordMismatch)
            }
        },
        None => Err(AppError::PasswordMismatch),
    }
}

/// Turns the result of a check into the result of a request.
pub fn checked<T>(r: Result<T, ValidationError>) -> (out: Result<T, AppError>)
    ensures
        match r {
            Ok(value) => out == Ok::<T, AppError>(value),
            Err(error) => out == Err::<T, AppError>(AppError::Validation(error)),
        },
{
    match r {
        Ok(value) => Ok(value),
        Err(error) => Err(AppError::Validation(error)),
    }
}

} // verus!
