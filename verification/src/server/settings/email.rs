//! Changing the email of an account.

use crate::applications::finalize::after_last;
use crate::applications::record::{ClientSocket, OAuthProvider};
use crate::applications::pointer_of;
use crate::applications::registration::start_step;
use crate::applications::update_email::{
    EmailUpdateAction, EmailUpdateEvent, email_update_step, updating_entry,
};
use crate::db::Db;
use crate::error::AppError;
use crate::mail::{Mail, verification_mail};
use crate::server::{Accepted, check_password, password_matches, turned_down};
use crate::strings::same_text;
use crate::validation::unique::{email_valid, is_email_valid};
use crate::validation::ValidationErrorView;
use vstd::prelude::*;
use vstd::string::{StringExecFns, StrSliceExecFns};

verus! {

#[derive(Clone, Debug, PartialEq)]
pub struct UpdateEmailRequest {
    pub new_email: String,
    pub password: String,
}

#[derive(Clone, Debug, PartialEq)]
pub struct VerifyEmailRequest {
    pub new_email: String,
    pub otp: String,
}

/// Asks for the email of an account to be changed: with the right password
/// and a valid new email that differs from the old one, writes the pending
/// change and hands back the mail that carries the one-time password.
/// `stored` is the password of the account, `email` its email, `registered`
/// what the persistent store said of the new email.
pub fn update_email(
    db: &mut Db,
    conn_info: ClientSocket,
    stored: &Option<String>,
    email: String,
    body: UpdateEmailRequest,
    otp: String,
    registered: bool,
    service: &str,
) -> (r: Result<Accepted, AppError>)
    requires
        old(db).wf(),
    ensures
        final(db).wf(),
        if !password_matches(*stored, body.password@) {
            r matches Err(error) && error == AppError::PasswordMismatch && final(db)@ == old(db)@
        } else if email@ == body.new_email@ {
            r matches Err(error) && error == AppError::BadReq(
                "Your new email cannot be same as of your original email",
            ) && final(db)@ == old(db)@
        } else if !email_valid(body.new_email@) {
            turned_down(r, ValidationErrorView::InvalidEmailFormat) && final(db)@ == old(db)@
        } else {
            let entry = updating_entry(conn_info@, email@, otp@);
            match r {
                Ok(accepted) => accepted.mail@ == verification_mail(
                    body.new_email@,
                    otp@,
                    service@,
                ) && accepted.message@ == "Please verify your email"@ && !registered
                    && final(db)@ == start_step(
                    old(db)@,
                    body.new_email@,
                    entry,
                    false,
                    registered,
                ).0,
                Err(error) => error == AppError::EmailTaken && final(db)@ == old(db)@ && (
                registered || old(db)@.registrants.contains_key(body.new_email@)),
            }
        },
{
    match check_password(stored, body.password.as_str()) {
        Ok(()) => {},
        Err(error) => {
            return Err(error);
        },
    }
    if same_text(email.as_str(), body.new_email.as_str()) {
        return Err(AppError::BadReq("Your new email cannot be same as of your original email"));
    }
    match is_email_valid(body.new_email.as_str()) {
        Ok(()) => {},
        Err(error) => {
            return Err(AppError::Validation(error));
        },
    }
    let mail = Mail::verification(body.new_email.as_str(), otp.as_str(), service);
    match db.request_email_update(conn_info, email, body.new_email, otp, registered) {
        Ok(()) => Ok(Accepted { mail, message: "Please verify your email".to_owned() }),
        Err(error) => Err(error),
    }
}

/// Takes one turn of the confirmation of a new email. `old_email` is the
/// email that the account has.
pub fn verify_email(db: &mut Db, old_email: &str, body: &VerifyEmailRequest, event: EmailUpdateEvent) -> (action: EmailUpdateAction)
    requires
        old(db).wf(),
    ensures
        final(db).wf(),
        (final(db)@, action) == email_update_step(
            old(db)@,
            old_email@,
            body.new_email@,
            body.otp@,
            event,
            None,
            None,
        ) || (old(db)@.registrant(body.new_email@) is Some && (final(db)@, action)
            == email_update_step(
            old(db)@,
            old_email@,
            body.new_email@,
            body.otp@,
            event,
            old(db)@.registrant(body.new_email@),
            pointer_of(old(db)@, body.new_email@),
        )),
{
    db.update_email(old_email, body.new_email.as_str(), body.otp.as_str(), event)
}

/// The domain of an email: what follows its last `@`; the whole text where
/// it has none.
pub fn email_domain(email: &str) -> (r: String)
    ensures
        r@ == after_last(email@, '@'),
{
    let n = email.unicode_len();
    let mut i: usize = 0;
    let mut start: usize = 0;
    for c in it: email.chars()
        invariant
            it.seq() == email@,
            n == email@.len(),
            i == it.index(),
            start <= i <= n,
            after_last(email@.take(i as int), '@') == email@.subrange(start as int, i as int),
    {
        proof {
            assert(email@.take(i + 1).drop_last() =~= email@.take(i as int));
            assert(email@.subrange(start as int, i as int).push(c) =~= email@.subrange(
                start as int,
                i + 1,
            ));
            assert(email@.subrange(i + 1, i + 1) =~= Seq::<char>::empty());
        }
        if c == '@' {
            start = i + 1;
        }
        i += 1;
    }
    proof {
        assert(email@.take(n as int) =~= email@);
    }
    email.substring_char(start, n).to_owned()
}

/// Connects an account with the provider that serves its email. `provider`
/// is the provider of the email's domain and `name` what it is called; an
/// email that no provider serves is turned down. The answer is the message
/// for the client.
pub fn connect_email(provider: OAuthProvider, name: &str) -> (r: Result<String, AppError>)
    ensures
        match provider {
            OAuthProvider::NoProvider => r matches Err(error) && error == AppError::BadReq(
                "Unsupported OAuth Provider",
            ),
            _ => r matches Ok(message) && message@ == "Your email is now connected with "@
                + name@,
        },
{
    match provider {
        OAuthProvider::NoProvider => Err(AppError::BadReq("Unsupported OAuth Provider")),
        _ => {
            let mut message = "Your email is now connected with ".to_owned();
            message.append(name);
            Ok(message)
        },
    }
}

} // verus!
