//! Registration by email and password, step by step.

use crate::applications::record::{
    ClientSocket, OAuthProvider, RegistrantEntry, RegistrantEntryView, RegistrantStatus,
    RegistrantStatusView,
};
use crate::applications::ApplicationsView;
use crate::db::Db;
use crate::error::AppError;
use crate::strings::same_text;
use vstd::prelude::*;

verus! {

/// The view of a registration that a lookup may have found.
pub open spec fn found_view(found: Option<RegistrantEntry>) -> Option<RegistrantEntryView> {
    match found {
        Some(entry) => Some(entry@),
        None => None,
    }
}

/// Whether an email can start a flow: it is neither pending in the ledger nor
/// registered in the persistent store.
pub open spec fn availability(present: bool, registered: bool) -> Result<(), AppError> {
    if present || registered {
        Err(AppError::EmailTaken)
    } else {
        Ok(())
    }
}

/// The registration that a password-based flow starts with.
pub open spec fn created_entry(socket: Seq<char>, name: Seq<char>, otp: Seq<char>) -> RegistrantEntryView {
    RegistrantEntryView {
        socket_addr: socket,
        display_name: Some(name),
        password: None,
        icon: None,
        phone: None,
        oauth_provider: OAuthProvider::NoProvider,
        status: RegistrantStatusView::Created(otp),
    }
}

/// What starting a flow gives, and the stores after it, when the ledger
/// answered `present` and the persistent store `registered`.
pub open spec fn start_step(
    before: ApplicationsView,
    email: Seq<char>,
    entry: RegistrantEntryView,
    present: bool,
    registered: bool,
) -> (ApplicationsView, Result<(), AppError>) {
    if availability(present, registered) is Ok {
        (before.with_registrant(email, entry), Ok(()))
    } else {
        (before, Err(AppError::EmailTaken))
    }
}

/// What a new one-time password gives, and the stores after it, when the
/// ledger handed out `found`.
pub open spec fn resend_step(
    before: ApplicationsView,
    email: Seq<char>,
    otp: Seq<char>,
    found: Option<RegistrantEntryView>,
) -> (ApplicationsView, Result<(), AppError>) {
    match found {
        Some(entry) => (
            before.with_registrant(
                email,
                RegistrantEntryView { status: RegistrantStatusView::Created(otp), ..entry },
            ),
            Ok(()),
        ),
        None => (before, Err(AppError::UserNotFound)),
    }
}

/// Whether a one-time password verifies the registration that was found.
pub open spec fn otp_outcome(found: Option<RegistrantEntryView>, otp: Seq<char>) -> Result<(), AppError> {
    match found {
        None => Err(AppError::UserNotFound),
        Some(entry) => match entry.status {
            RegistrantStatusView::Created(expected) => if expected == otp {
                Ok(())
            } else {
                Err(AppError::InvalidOTP)
            },
            _ => Err(AppError::BadReq("Please verify the email")),
        },
    }
}

/// What verifying an email gives, and the stores after it. A registration
/// that verifies is written back as it was found.
pub open spec fn verify_step(
    before: ApplicationsView,
    email: Seq<char>,
    otp: Seq<char>,
    found: Option<RegistrantEntryView>,
) -> (ApplicationsView, Result<(), AppError>) {
    match found {
        Some(entry) if otp_outcome(found, otp) is Ok => (before.with_registrant(email, entry), Ok(())),
        _ => (before, otp_outcome(found, otp)),
    }
}

/// What setting a password gives, and the stores after it.
pub open spec fn password_step(
    before: ApplicationsView,
    email: Seq<char>,
    password: Seq<char>,
    found: Option<RegistrantEntryView>,
) -> (ApplicationsView, Result<(), AppError>) {
    match found {
        Some(entry) => (
            before.with_registrant(email, RegistrantEntryView { password: Some(password), ..entry }),
            Ok(()),
        ),
        None => (before, Err(AppError::UserNotFound)),
    }
}

/// Decides whether an email can start a flow, from what the ledger and the
/// persistent store said of it.
pub fn email_availability(present: bool, registered: bool) -> (r: Result<(), AppError>)
    ensures
        r == availability(present, registered),
{
    if present || registered {
        Err(AppError::EmailTaken)
    } else {
        Ok(())
    }
}

/// Decides whether a one-time password verifies the registration that the
/// ledger handed out.
pub fn check_otp(found: &Option<RegistrantEntry>, otp: &str) -> (r: Result<(), AppError>)
    ensures
        r == otp_outcome(found_view(*found), otp@),
{
    match found {
        None => Err(AppError::UserNotFound),
        Some(entry) => match &entry.status {
            RegistrantStatus::Created(expected) => {
                if same_text(expected.as_str(), otp) {
                    Ok(())
                } else {
                    Err(AppError::InvalidOTP)
                }
            },
            _ => Err(AppError::BadReq("Please verify the email")),
        },
    }
}

/// The entry that a new one-time password leaves, given what the ledger
/// handed out: the entry with status `Created`, whatever its status was.
pub fn reissue(found: Option<RegistrantEntry>, otp: String) -> (r: Result<RegistrantEntry, AppError>)
    ensures
        match found {
            Some(entry) => r matches Ok(renewed) && renewed@ == (RegistrantEntryView {
                status: RegistrantStatusView::Created(otp@),
                ..entry@
            }),
            None => r == Err::<RegistrantEntry, AppError>(AppError::UserNotFound),
        },
{
    match found {
        Some(entry) => {
            let mut entry = entry;
            entry.status = RegistrantStatus::Created(otp);
            Ok(entry)
        },
        None => Err(AppError::UserNotFound),
    }
}

/// The entry that setting a password leaves, given what the ledger handed
/// out: the entry with the password, whatever its status is.
pub fn with_password(found: Option<RegistrantEntry>, password: String) -> (r: Result<
    RegistrantEntry,
    AppError,
>)
    ensures
        match found {
            Some(entry) => r matches Ok(changed) && changed@ == (RegistrantEntryView {
                password: Some(password@),
                ..entry@
            }),
            None => r == Err::<RegistrantEntry, AppError>(AppError::UserNotFound),
        },
{
    match found {
        Some(entry) => {
            let mut entry = entry;
            entry.password = Some(password);
            Ok(entry)
        },
        None => Err(AppError::UserNotFound),
    }
}

impl Db {
    /// Whether an email is free to start a flow. `registered` is what the
    /// persistent store said of it. An email that the ledger never held, or no
    /// longer holds, is judged by the persistent store alone.
    pub fn is_email_available(&self, email: &str, registered: bool) -> (r: Result<(), AppError>)
        ensures
            r == availability(false, registered) || (self@.registrants.contains_key(email@) && r
                == availability(true, registered)),
    {
        let present = self.applications.is_email_present(email);
        email_availability(present, registered)
    }

    /// Starts a registration by email: on an available email, writes a
    /// registration that waits for `otp`; on another, fails with `EmailTaken`
    /// and changes nothing.
    pub fn create_registrant(
        &mut self,
        socket: ClientSocket,
        name: String,
        email: String,
        otp: String,
        registered: bool,
    ) -> (r: Result<(), AppError>)
        requires
            old(self).wf(),
        ensures
            final(self).wf(),
            (final(self)@, r) == start_step(
                old(self)@,
                email@,
                created_entry(socket@, name@, otp@),
                false,
                registered,
            ) || (old(self)@.registrants.contains_key(email@) && (final(self)@, r) == start_step(
                old(self)@,
                email@,
                created_entry(socket@, name@, otp@),
                true,
                registered,
            )),
    {
        match self.is_email_available(email.as_str(), registered) {
            Ok(()) => {
                self.applications.insert_registrant(
                    email,
                    RegistrantEntry {
                        socket_addr: socket,
                        display_name: Some(name),
                        password: None,
                        icon: None,
                        phone: None,
                        oauth_provider: OAuthProvider::NoProvider,
                        status: RegistrantStatus::Created(otp),
                    },
                );
                Ok(())
            },
            Err(e) => Err(e),
        }
    }

    /// Gives a pending registration a new one-time password, whatever its
    /// status was. Fails with `UserNotFound` where the ledger has none.
    pub fn update_registrant_otp(&mut self, email: &str, otp: String) -> (r: Result<(), AppError>)
        requires
            old(self).wf(),
        ensures
            final(self).wf(),
            (final(self)@, r) == resend_step(old(self)@, email@, otp@, None) || (old(
                self,
            )@.registrant(email@) is Some && (final(self)@, r) == resend_step(
                old(self)@,
                email@,
                otp@,
                old(self)@.registrant(email@),
            )),
    {
        match reissue(self.applications.get_registrant(email), otp) {
            Ok(entry) => {
                self.applications.insert_registrant(email.to_owned(), entry);
                Ok(())
            },
            Err(error) => Err(error),
        }
    }

    /// Checks a one-time password against the pending registration of an
    /// email. The registration stays for the steps that follow.
    pub fn verify_registrant_email(&mut self, email: &str, otp: &str) -> (r: Result<(), AppError>)
        requires
            old(self).wf(),
        ensures
            final(self).wf(),
            (final(self)@, r) == verify_step(old(self)@, email@, otp@, None) || (old(
                self,
            )@.registrant(email@) is Some && (final(self)@, r) == verify_step(
                old(self)@,
                email@,
                otp@,
                old(self)@.registrant(email@),
            )),
    {
        let found = self.applications.get_registrant(email);
        match check_otp(&found, otp) {
            Ok(()) => {
                match found {
                    Some(entry) => {
                        self.applications.insert_registrant(email.to_owned(), entry);
                    },
                    None => {},
                }
                Ok(())
            },
            Err(e) => Err(e),
        }
    }

    /// Stores a password in the pending registration of an email, whatever
    /// its status is. Fails with `UserNotFound` where the ledger has none.
    pub fn set_registrant_password(&mut self, email: &str, password: String) -> (r: Result<
        (),
        AppError,
    >)
        requires
            old(self).wf(),
        ensures
            final(self).wf(),
            (final(self)@, r) == password_step(old(self)@, email@, password@, None) || (old(
                self,
            )@.registrant(email@) is Some && (final(self)@, r) == password_step(
                old(self)@,
                email@,
                password@,
                old(self)@.registrant(email@),
            )),
    {
        match with_password(self.applications.get_registrant(email), password) {
            Ok(entry) => {
                self.applications.insert_registrant(email.to_owned(), entry);
                Ok(())
            },
            Err(error) => Err(error),
        }
    }
}

} // verus!
