//! Password recovery: asking for a code, and using it.

use crate::applications::pre_recovery::{issue_step, ResetAction, ResetEvent};
use crate::applications::record::ClientSocket;
use crate::db::Db;
use crate::error::AppError;
use crate::mail::{Mail, password_changed_mail, recovery_mail};
use crate::server::{Accepted, turned_down};
use crate::validation::text::{is_password_strong, password_outcome};
use crate::validation::unique::{email_valid, is_email_valid};
use crate::validation::ValidationErrorView;
use vstd::prelude::*;
use vstd::string::StringExecFns;

verus! {

#[derive(Debug, PartialEq)]
pub struct ForgotPasswordRequest {
    pub email: String,
}

#[derive(Debug, PartialEq)]
pub struct ResetPasswordQuery {
    pub code: String,
}

#[derive(Debug, PartialEq)]
pub struct ResetPasswordRequest {
    pub password: String,
}

/// What `reset_password` asks the service to do next.
#[derive(Debug, PartialEq)]
pub enum ResetStep {
    /// Store the new password of this email, then come back.
    UpdatePassword { email: String },
    /// Answer the client, and send the mail if there is one.
    Reply(Result<Accepted, AppError>),
}

/// Issues a recovery code for a valid email and hands back the mail that
/// carries the link. `code` is the fresh code, `domain` the address that the
/// service is reached at.
pub fn forgot_password(
    db: &mut Db,
    conn_info: ClientSocket,
    body: ForgotPasswordRequest,
    code: String,
    service: &str,
    domain: &str,
) -> (r: Result<Accepted, AppError>)
    requires
        old(db).wf(),
    ensures
        final(db).wf(),
        if email_valid(body.email@) {
            &&& r matches Ok(accepted) && accepted.mail@ == recovery_mail(
                body.email@,
                code@,
                service@,
                domain@,
            ) && accepted.message@ == "Check your email to reset password"@
            &&& final(db)@ == issue_step(old(db)@, body.email@, code@, None) || (old(
                db,
            )@.recovery(body.email@) is Some && final(db)@ == issue_step(
                old(db)@,
                body.email@,
                code@,
                old(db)@.recovery(body.email@),
            ))
        } else {
            turned_down(r, ValidationErrorView::InvalidEmailFormat) && final(db)@ == old(db)@
        },
{
    match is_email_valid(body.email.as_str()) {
        Ok(()) => {},
        Err(error) => {
            return Err(AppError::Validation(error));
        },
    }
    let mail = Mail::recovery(body.email.as_str(), code.as_str(), service, domain);
    db.request_password_reset(conn_info, body.email, code);
    Ok(Accepted { mail, message: "Check your email to reset password".to_owned() })
}

/// Takes one turn of a password reset. Asked with `Requested`, it turns a
/// weak password down, and otherwise either names the email whose password
/// is to be stored or answers that the code was not found. Told `Updated`, it
/// retires the code and hands back the mail that tells of the change. Told
/// `UpdateFailed`, it answers with that error.
pub fn reset_password(
    db: &mut Db,
    conn_info: ClientSocket,
    q: &ResetPasswordQuery,
    body: &ResetPasswordRequest,
    event: ResetEvent,
    service: &str,
) -> (step: ResetStep)
    requires
        old(db).wf(),
    ensures
        final(db).wf(),
        match event {
            ResetEvent::Requested => final(db)@ == old(db)@ && match password_outcome(
                body.password@,
            ) {
                Err(reason) => step matches ResetStep::Reply(r) && turned_down(r, reason),
                Ok(()) => match step {
                    ResetStep::UpdatePassword { email } => old(db)@.recovery(q.code@) == Some(
                        email@,
                    ),
                    ResetStep::Reply(r) => r matches Err(error) && error == AppError::BadReq(
                        "Password Reset code not found",
                    ),
                },
            },
            ResetEvent::Updated { email } => final(db)@ == old(db)@.without_recovery(
                email@,
            ).without_recovery(q.code@) && (step matches ResetStep::Reply(Ok(accepted))
                && accepted.mail@ == password_changed_mail(email@, service@) && accepted.message@
                == "Your password for "@ + email@ + " has been changed"@),
            ResetEvent::UpdateFailed(error) => final(db)@ == old(db)@ && (step
                matches ResetStep::Reply(Err(given)) && given == error),
        },
{
    if let ResetEvent::Requested = &event {
        match is_password_strong(body.password.as_str()) {
            Ok(()) => {},
            Err(error) => {
                return ResetStep::Reply(Err(AppError::Validation(error)));
            },
        }
    }
    match db.reset_password(conn_info, q.code.as_str(), event) {
        ResetAction::UpdatePassword { email } => ResetStep::UpdatePassword { email },
        ResetAction::Reply(Ok(email)) => {
            let mut message = "Your password for ".to_owned();
            message.append(email.as_str());
            message.append(" has been changed");
            ResetStep::Reply(
                Ok(Accepted { mail: Mail::password_changed(email.as_str(), service), message }),
            )
        },
        ResetAction::Reply(Err(error)) => ResetStep::Reply(Err(error)),
    }
}

} // verus!
