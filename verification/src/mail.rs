//! The mails that the service sends.

use vstd::prelude::*;
use vstd::string::StringExecFns;

verus! {

/// A mail that is ready to be sent.
#[derive(Clone, Debug, PartialEq)]
pub struct Mail {
    pub to_email: String,
    pub subject: String,
    pub body: String,
}

/// A mail with its texts as sequences of characters.
pub struct MailView {
    pub to_email: Seq<char>,
    pub subject: Seq<char>,
    pub body: Seq<char>,
}

impl View for Mail {
    type V = MailView;

    open spec fn view(&self) -> MailView {
        MailView { to_email: self.to_email@, subject: self.subject@, body: self.body@ }
    }
}

/// The mail that carries a one-time password.
pub open spec fn verification_mail(to: Seq<char>, otp: Seq<char>, service: Seq<char>) -> MailView {
    MailView {
        to_email: to,
        subject: otp + " is your "@ + service + " verification code"@,
        body: "Confirm your email address\n "@ + otp + "\n Thanks,\n "@ + service,
    }
}

/// The mail that confirms a verified email.
pub open spec fn verified_mail(to: Seq<char>, service: Seq<char>) -> MailView {
    MailView {
        to_email: to,
        subject: "Your email "@ + to + " has been verified successfully"@,
        body: "Your email "@ + to + " has been verified successfully\n Thanks,\n "@ + service,
    }
}

/// The mail that carries the link to reset a password.
pub open spec fn recovery_mail(
    to: Seq<char>,
    code: Seq<char>,
    service: Seq<char>,
    domain: Seq<char>,
) -> MailView {
    MailView {
        to_email: to,
        subject: service + " password reset request"@,
        body: "<h1>Reset your password?</h1>\nIf you requested a password reset for "@ + to
            + " press on this link "@ + domain + "/reset_password?code="@ + code
            + "\nIf you didn't make the request, please ignore this email.\nThanks, "@ + service
            + "\n"@,
    }
}

/// The mail that tells of a changed password.
pub open spec fn password_changed_mail(to: Seq<char>, service: Seq<char>) -> MailView {
    MailView {
        to_email: to,
        subject: "Your "@ + service + " password has been changed"@,
        body: "Your password for "@ + to + " has been changed.\nThanks, "@ + service + "\n"@,
    }
}

impl Mail {
    /// Writes the mail that carries a one-time password.
    pub fn verification(to: &str, otp: &str, service: &str) -> (r: Mail)
        ensures
            r@ == verification_mail(to@, otp@, service@),
    {
        let mut subject = otp.to_owned();
        subject.append(" is your ");
        subject.append(service);
        subject.append(" verification code");
        let mut body = "Confirm your email address\n ".to_owned();
        body.append(otp);
        body.append("\n Thanks,\n ");
        body.append(service);
        Mail { to_email: to.to_owned(), subject, body }
    }

    /// Writes the mail that confirms a verified email.
    pub fn verified(to: &str, service: &str) -> (r: Mail)
        ensures
            r@ == verified_mail(to@, service@),
    {
        let mut subject = "Your email ".to_owned();
        subject.append(to);
        subject.append(" has been verified successfully");
        let mut body = "Your email ".to_owned();
        body.append(to);
        body.append(" has been verified successfully\n Thanks,\n ");
        body.append(service);
        Mail { to_email: to.to_owned(), subject, body }
    }

    /// Writes the mail that carries the link to reset a password.
    pub fn recovery(to: &str, code: &str, service: &str, domain: &str) -> (r: Mail)
        ensures
            r@ == recovery_mail(to@, code@, service@, domain@),
    {
        let mut subject = service.to_owned();
        subject.append(" password reset request");
        let mut body = "<h1>Reset your password?</h1>\nIf you requested a password reset for ".to_owned();
        body.append(to);
        body.append(" press on this link ");
        body.append(domain);
        body.append("/reset_password?code=");
        body.append(code);
        body.append("\nIf you didn't make the request, please ignore this email.\nThanks, ");
        body.append(service);
        body.append("\n");
        Mail { to_email: to.to_owned(), subject, body }
    }

    /// Writes the mail that tells of a changed password.
    pub fn password_changed(to: &str, service: &str) -> (r: Mail)
        ensures
            r@ == password_changed_mail(to@, service@),
    {
        let mut subject = "Your ".to_owned();
        subject.append(service);
        subject.append(" password has been changed");
        let mut body = "Your password for ".to_owned();
        body.append(to);
        body.append(" has been changed.\nThanks, ");
        body.append(service);
        body.append("\n");
        Mail { to_email: to.to_owned(), subject, body }
    }
}

} // verus!
