//! The sign-in form.

use crate::server::auth::logging::LoginRequest;
use crate::server::auth::register::username_outcome;
use crate::validation::unique::{email_valid, is_email_valid, is_username_valid};
use crate::validation::{ValidationError, ValidationErrorView};
use vstd::prelude::*;

verus! {

/// Whether a text holds an `@`.
fn has_at_sign(text: &str) -> (r: bool)
    ensures
        r == text@.contains('@'),
{
    for c in it: text.chars()
        invariant
            it.seq() == text@,
            forall|j: int| 0 <= j < it.index() ==> text@[j] != '@',
    {
        if c == '@' {
            assert(text@[it.index()] == '@');
            return true;
        }
    }
    false
}

/// What is wrong with what a user signs in with, if anything: with an `@`
/// in it, it has to be an email; without one, a username.
pub open spec fn identity_outcome(id: Seq<char>) -> Result<(), ValidationErrorView> {
    if id.contains('@') {
        if email_valid(id) {
            Ok(())
        } else {
            Err(ValidationErrorView::InvalidEmailFormat)
        }
    } else {
        username_outcome(id)
    }
}

/// Makes the sign-in request of what a user typed: the identification goes
/// in as the email where it holds an `@`, and as the username otherwise.
pub fn login_request(id: &str, password: &str) -> (r: Result<LoginRequest, ValidationError>)
    ensures
        match identity_outcome(id@) {
            Err(reason) => r matches Err(error) && error@ == reason,
            Ok(()) => r matches Ok(request) && request.password@ == password@ && if id@.contains(
                '@',
            ) {
                request.username is None && (request.email matches Some(email) && email@ == id@)
            } else {
                request.email is None && (request.username matches Some(name) && name@ == id@)
            },
        },
{
    if has_at_sign(id) {
        match is_email_valid(id) {
            Ok(()) => Ok(
                LoginRequest {
                    email: Some(id.to_owned()),
                    username: None,
                    password: password.to_owned(),
                },
            ),
            Err(error) => Err(error),
        }
    } else {
        match is_username_valid(id) {
            Ok(()) => Ok(
                LoginRequest {
                    email: None,
                    username: Some(id.to_owned()),
                    password: password.to_owned(),
                },
            ),
            Err(error) => Err(error),
        }
    }
}

} // verus!
