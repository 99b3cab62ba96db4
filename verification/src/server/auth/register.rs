//! Registration by email: what each step checks, does and answers.

use crate::applications::finalize::{username_turn, UsernameAction, UsernameEvent};
use crate::applications::record::ClientSocket;
use crate::applications::registration::{
    created_entry, password_step, resend_step, start_step, verify_step,
};
use crate::db::Db;
use crate::error::AppError;
use crate::mail::{Mail, verification_mail, verified_mail};
use crate::server::{Accepted, follows, turned_down};
use crate::validation::text::{
    display_name_outcome, is_display_name_valid, is_password_strong, password_outcome,
};
use crate::validation::unique::{email_valid, is_email_valid, is_username_valid, username_fault};
use crate::validation::ValidationErrorView;
use vstd::prelude::*;
use vstd::string::StringExecFns;

verus! {

#[derive(Clone, Debug, PartialEq)]
pub struct CreateUserRequest {
    pub name: String,
    pub email: String,
}

#[derive(Clone, Debug, PartialEq)]
pub struct ResendOtpRequest {
    pub email: String,
}

#[derive(Clone, Debug, PartialEq)]
pub struct VerifyEmailRequest {
    pub email: String,
    pub otp: String,
}

#[derive(Clone, Debug, PartialEq)]
pub struct SetPasswordRequest {
    pub email: String,
    pub password: String,
}

#[derive(Clone, Debug, PartialEq)]
pub struct SetUsernameRequest {
    pub email: String,
    pub username: String,
}

/// What is wrong with the name or the email of a new user, if anything: the
/// name is looked at first.
pub open spec fn new_user_fault(name: Seq<char>, email: Seq<char>) -> Result<(), ValidationErrorView> {
    match display_name_outcome(name) {
        Err(reason) => Err(reason),
        Ok(()) => if email_valid(email) {
            Ok(())
        } else {
            Err(ValidationErrorView::InvalidEmailFormat)
        },
    }
}

impl CreateUserRequest {
    /// Checks the display name, then the email.
    pub fn validate(&self) -> (r: Result<(), AppError>)
        ensures
            follows(r, new_user_fault(self.name@, self.email@)),
    {
        match is_display_name_valid(self.name.as_str()) {
            Ok(()) => {},
            Err(error) => {
                return Err(AppError::Validation(error));
            },
        }
        match is_email_valid(self.email.as_str()) {
            Ok(()) => Ok(()),
            Err(error) => Err(AppError::Validation(error)),
        }
    }
}

/// Starts a registration: checks name and email, writes the pending entry
/// that waits for `otp`, and hands back the mail that carries it. `registered`
/// is what the persistent store said of the email, `service` the name that
/// the service goes by. A request that is turned down changes nothing.
pub fn start(
    db: &mut Db,
    conn_info: ClientSocket,
    body: CreateUserRequest,
    otp: String,
    registered: bool,
    service: &str,
) -> (r: Result<Accepted, AppError>)
    requires
        old(db).wf(),
    ensures
        final(db).wf(),
        match new_user_fault(body.name@, body.email@) {
            Err(reason) => turned_down(r, reason) && final(db)@ == old(db)@,
            Ok(()) => {
                let entry = created_entry(conn_info@, body.name@, otp@);
                let unseen = start_step(old(db)@, body.email@, entry, false, registered);
                let seen = start_step(old(db)@, body.email@, entry, true, registered);
                match r {
                    Ok(accepted) => accepted.mail@ == verification_mail(
                        body.email@,
                        otp@,
                        service@,
                    ) && accepted.message@ == "Your information has been accepted"@ && unseen.1
                        is Ok && final(db)@ == unseen.0,
                    Err(error) => error == AppError::EmailTaken && final(db)@ == old(db)@ && (
                    unseen.1 is Err || old(db)@.registrants.contains_key(body.email@)),
                }
            },
        },
{
    match body.validate() {
        Ok(()) => {},
        Err(error) => {
            return Err(error);
        },
    }
    let mail = Mail::verification(body.email.as_str(), otp.as_str(), service);
    match db.create_registrant(conn_info, body.name, body.email, otp, registered) {
        Ok(()) => Ok(Accepted { mail, message: "Your information has been accepted".to_owned() }),
        Err(error) => Err(error),
    }
}

/// Issues a new one-time password for a pending registration and hands back
/// the mail that carries it.
pub fn resend_otp(db: &mut Db, body: ResendOtpRequest, otp: String, service: &str) -> (r: Result<
    Accepted,
    AppError,
>)
    requires
        old(db).wf(),
    ensures
        final(db).wf(),
        match r {
            Ok(accepted) => accepted.mail@ == verification_mail(body.email@, otp@, service@)
                && accepted.message@ == "The email has been sent"@ && old(db)@.registrant(
                body.email@,
            ) is Some && final(db)@ == resend_step(
                old(db)@,
                body.email@,
                otp@,
                old(db)@.registrant(body.email@),
            ).0,
            Err(error) => error == AppError::UserNotFound && final(db)@ == old(db)@,
        },
{
    let mail = Mail::verification(body.email.as_str(), otp.as_str(), service);
    match db.update_registrant_otp(body.email.as_str(), otp) {
        Ok(()) => Ok(Accepted { mail, message: "The email has been sent".to_owned() }),
        Err(error) => Err(error),
    }
}

/// Verifies the email of a pending registration with a one-time password
/// and hands back the mail that confirms it.
pub fn verify_email(db: &mut Db, body: VerifyEmailRequest, service: &str) -> (r: Result<
    Accepted,
    AppError,
>)
    requires
        old(db).wf(),
    ensures
        final(db).wf(),
        ({
            let unseen = verify_step(old(db)@, body.email@, body.otp@, None);
            let seen = verify_step(
                old(db)@,
                body.email@,
                body.otp@,
                old(db)@.registrant(body.email@),
            );
            match r {
                Ok(accepted) => accepted.mail@ == verified_mail(body.email@, service@)
                    && accepted.message@ == "Email Verification successful"@ && old(
                    db,
                )@.registrant(body.email@) is Some && seen.1 is Ok && final(db)@ == seen.0,
                Err(error) => final(db)@ == old(db)@ && (Err::<(), AppError>(error) == unseen.1
                    || (old(db)@.registrant(body.email@) is Some && Err::<(), AppError>(error)
                    == seen.1)),
            }
        }),
{
    match db.verify_registrant_email(body.email.as_str(), body.otp.as_str()) {
        Ok(()) => Ok(
            Accepted {
                mail: Mail::verified(body.email.as_str(), service),
                message: "Email Verification successful".to_owned(),
            },
        ),
        Err(error) => Err(error),
    }
}

/// Sets the password of a pending registration once it was found strong,
/// and hands back the message for the client.
pub fn set_password(db: &mut Db, body: SetPasswordRequest) -> (r: Result<String, AppError>)
    requires
        old(db).wf(),
    ensures
        final(db).wf(),
        match password_outcome(body.password@) {
            Err(reason) => turned_down(r, reason) && final(db)@ == old(db)@,
            Ok(()) => match r {
                Ok(message) => message@ == "Your password for email "@ + body.email@
                    + " has been set"@ && old(db)@.registrant(body.email@) is Some && final(db)@
                    == password_step(
                    old(db)@,
                    body.email@,
                    body.password@,
                    old(db)@.registrant(body.email@),
                ).0,
                Err(error) => error == AppError::UserNotFound && final(db)@ == old(db)@,
            },
        },
{
    match is_password_strong(body.password.as_str()) {
        Ok(()) => {},
        Err(error) => {
            return Err(AppError::Validation(error));
        },
    }
    let mut message = "Your password for email ".to_owned();
    message.append(body.email.as_str());
    message.append(" has been set");
    match db.set_registrant_password(body.email.as_str(), body.password) {
        Ok(()) => Ok(message),
        Err(error) => Err(error),
    }
}

/// The validation error of a username that has a fault.
pub open spec fn username_outcome(username: Seq<char>) -> Result<(), ValidationErrorView> {
    match username_fault(username) {
        Some(fault) => Err(ValidationErrorView::InvalidUsername(fault)),
        None => Ok(()),
    }
}

/// Takes one turn of the last step of a registration. A request with a
/// username that is not valid is answered at once with the validation
/// error; every other turn is the coordinator's.
pub fn set_username(db: &mut Db, body: SetUsernameRequest, event: UsernameEvent) -> (action: UsernameAction)
    requires
        old(db).wf(),
    ensures
        final(db).wf(),
        if event is Requested && username_fault(body.username@) is Some {
            final(db)@ == old(db)@ && (action matches UsernameAction::Reply(r) && turned_down(
                r,
                ValidationErrorView::InvalidUsername(username_fault(body.username@)->0),
            ))
        } else {
            username_turn(old(db)@, final(db)@, body.email@, body.username@, event, action)
        },
{
    if let UsernameEvent::Requested { .. } = &event {
        match is_username_valid(body.username.as_str()) {
            Ok(()) => {},
            Err(error) => {
                return UsernameAction::Reply(Err(AppError::Validation(error)));
            },
        }
    }
    db.set_registrant_username(body.email, body.username, event)
}

} // verus!
