//! Changing and checking the password of an account.

use crate::error::AppError;
use crate::server::{check_password, password_matches, turned_down};
use crate::validation::text::{is_password_strong, password_outcome};
use vstd::prelude::*;

verus! {

#[derive(Clone, Debug, PartialEq)]
pub struct UpdatePasswordRequest {
    pub old_password: String,
    pub new_password: String,
}

#[derive(Clone, Debug, PartialEq)]
pub struct VerifyPasswordRequest {
    pub password: String,
}

/// Decides on a new password: the old one has to match the stored one, and
/// the new one has to be strong.
pub fn update_password(stored: &Option<String>, body: &UpdatePasswordRequest) -> (r: Result<
    (),
    AppError,
>)
    ensures
        if !password_matches(*stored, body.old_password@) {
            r matches Err(error) && error == AppError::PasswordMismatch
        } else {
            match password_outcome(body.new_password@) {
                Ok(()) => r is Ok,
                Err(reason) => turned_down(r, reason),
            }
        },
{
    match check_password(stored, body.old_password.as_str()) {
        Ok(()) => {},
        Err(error) => {
            return Err(error);
        },
    }
    match is_password_strong(body.new_password.as_str()) {
        Ok(()) => Ok(()),
        Err(error) => Err(AppError::Validation(error)),
    }
}

/// Checks a password against the stored one and hands back the message for
/// the client.
pub fn verify_password(stored: &Option<String>, body: &VerifyPasswordRequest) -> (r: Result<
    String,
    AppError,
>)
    ensures
        if password_matches(*stored, body.password@) {
            r matches Ok(message) && message@ == "Password correct"@
        } else {
            r matches Err(error) && error == AppError::PasswordMismatch
        },
{
    match check_password(stored, body.password.as_str()) {
        Ok(()) => Ok("Password correct".to_owned()),
        Err(error) => Err(error),
    }
}

} // verus!
