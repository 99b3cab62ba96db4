//! Changing the username of an account.

use crate::error::AppError;
use crate::server::auth::register::username_outcome;
use crate::server::{check_password, password_matches, turned_down};
use crate::strings::same_text;
use crate::validation::unique::is_username_valid;
use vstd::prelude::*;

verus! {

#[derive(Clone, Debug, PartialEq)]
pub struct UpdateUsernameRequest {
    pub new_username: String,
    pub password: String,
}

#[derive(Clone, Debug, PartialEq)]
pub struct ValidateUsernameRequest {
    pub username: String,
}

/// What is wrong with a username that an account asks for, if anything: it
/// is not valid, or it is the one that the account has.
pub open spec fn new_username_outcome(current: Seq<char>, wanted: Seq<char>, r: Result<(), AppError>) -> bool {
    match username_outcome(wanted) {
        Err(reason) => turned_down(r, reason),
        Ok(()) => if current == wanted {
            r matches Err(error) && error == AppError::BadReq(
                "Your new username cannot be same as of your original username",
            )
        } else {
            r is Ok
        },
    }
}

/// Decides whether an account may ask the persistent store for a username.
pub fn validate_username(username: &str, body: &ValidateUsernameRequest) -> (r: Result<(), AppError>)
    ensures
        new_username_outcome(username@, body.username@, r),
{
    match is_username_valid(body.username.as_str()) {
        Ok(()) => {},
        Err(error) => {
            return Err(AppError::Validation(error));
        },
    }
    if same_text(username, body.username.as_str()) {
        return Err(
            AppError::BadReq("Your new username cannot be same as of your original username"),
        );
    }
    Ok(())
}

/// Decides whether an account may change its username: the password has to
/// match, and the new username has to be valid and new.
pub fn update_username(stored: &Option<String>, username: &str, body: &UpdateUsernameRequest) -> (r: Result<
    (),
    AppError,
>)
    ensures
        if !password_matches(*stored, body.password@) {
            r matches Err(error) && error == AppError::PasswordMismatch
        } else {
            new_username_outcome(username@, body.new_username@, r)
        },
{
    match check_password(stored, body.password.as_str()) {
        Ok(()) => {},
        Err(error) => {
            return Err(error);
        },
    }
    match is_username_valid(body.new_username.as_str()) {
        Ok(()) => {},
        Err(error) => {
            return Err(AppError::Validation(error));
        },
    }
    if same_text(username, body.new_username.as_str()) {
        return Err(
            AppError::BadReq("Your new username cannot be same as of your original username"),
        );
    }
    Ok(())
}

} // verus!
