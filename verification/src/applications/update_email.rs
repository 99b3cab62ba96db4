//! Changing the email of an account, confirmed by a one-time password.

use crate::applications::record::{
    DropTypeView,
    ClientSocket, OAuthProvider, RegistrantEntry, RegistrantEntryView, RegistrantStatus,
    RegistrantStatusView,
};
use crate::applications::registration::{found_view, start_step};
use crate::applications::{pointer_of, retire_step, ApplicationsView};
use crate::db::Db;
use crate::error::AppError;
use crate::strings::same_text;
use vstd::prelude::*;

verus! {

/// The ledger entry of an email change: kept under the new email, it
/// remembers the old one and the one-time password.
pub open spec fn updating_entry(socket: Seq<char>, old_email: Seq<char>, otp: Seq<char>) -> RegistrantEntryView {
    RegistrantEntryView {
        socket_addr: socket,
        display_name: None,
        password: None,
        icon: None,
        phone: None,
        oauth_provider: OAuthProvider::NoProvider,
        status: RegistrantStatusView::UpdatingEmail { old_email, otp },
    }
}

/// Whether an email change may be committed, given the entry found under the
/// new email. A wrong one-time password is reported before a wrong old email.
pub open spec fn confirmation(
    found: Option<RegistrantEntryView>,
    old_email: Seq<char>,
    otp: Seq<char>,
) -> Result<(), AppError> {
    match found {
        None => Err(AppError::UserNotFound),
        Some(entry) => match entry.status {
            RegistrantStatusView::UpdatingEmail { old_email: expected_email, otp: expected_otp } => {
                if otp != expected_otp {
                    Err(AppError::InvalidOTP)
                } else if old_email != expected_email {
                    Err(AppError::BadReq("New email didn't match"))
                } else {
                    Ok(())
                }
            },
            _ => Err(AppError::BadReq("Please verify the email")),
        },
    }
}

/// What the service hands to `update_email` at each turn.
#[derive(Clone, Copy, Debug, PartialEq, Eq)]
pub enum EmailUpdateEvent {
    /// A client confirms the change with a one-time password.
    Requested,
    /// The persistent store has replaced the old email by the new one.
    Persisted,
    /// The persistent store could not replace it.
    PersistFailed,
}

/// What `update_email` asks the service to do next.
#[derive(PartialEq, Debug)]
pub enum EmailUpdateAction {
    /// Replace the old email by the new one in the persistent store, then
    /// come back.
    Persist,
    /// Answer the client.
    Reply(Result<(), AppError>),
}

/// What one turn of `update_email` gives, and the stores after it, when the
/// ledger handed out `found` for the new email and the socket index
/// `pointer` for the endpoint of what was found.
pub open spec fn email_update_step(
    before: ApplicationsView,
    old_email: Seq<char>,
    new_email: Seq<char>,
    otp: Seq<char>,
    event: EmailUpdateEvent,
    found: Option<RegistrantEntryView>,
    pointer: Option<DropTypeView>,
) -> (ApplicationsView, EmailUpdateAction) {
    match event {
        EmailUpdateEvent::Requested => match confirmation(found, old_email, otp) {
            Ok(()) => (before, EmailUpdateAction::Persist),
            Err(error) => (before, EmailUpdateAction::Reply(Err(error))),
        },
        EmailUpdateEvent::Persisted => (
            retire_step(before, new_email, found, pointer),
            EmailUpdateAction::Reply(Ok(())),
        ),
        EmailUpdateEvent::PersistFailed => (
            before,
            EmailUpdateAction::Reply(Err(AppError::ServerError)),
        ),
    }
}

/// Decides whether an email change may be committed, from the entry that the
/// ledger handed out for the new email.
pub fn confirm_email_update(found: &Option<RegistrantEntry>, old_email: &str, otp: &str) -> (r: Result<
    (),
    AppError,
>)
    ensures
        r == confirmation(found_view(*found), old_email@, otp@),
{
    match found {
        None => Err(AppError::UserNotFound),
        Some(entry) => match &entry.status {
            RegistrantStatus::UpdatingEmail { old_email: expected_email, otp: expected_otp } => {
                if !same_text(otp, expected_otp.as_str()) {
                    Err(AppError::InvalidOTP)
                } else if !same_text(old_email, expected_email.as_str()) {
                    Err(AppError::BadReq("New email didn't match"))
                } else {
                    Ok(())
                }
            },
            _ => Err(AppError::BadReq("Please verify the email")),
        },
    }
}

impl Db {
    /// Asks for an email change: on an available new email, writes an entry
    /// under it that remembers the old email and the one-time password; on
    /// another, fails with `EmailTaken` and changes nothing. `registered` is
    /// what the persistent store said of the new email.
    pub fn request_email_update(
        &mut self,
        socket_addr: ClientSocket,
        old_email: String,
        new_email: String,
        otp: String,
        registered: bool,
    ) -> (r: Result<(), AppError>)
        requires
            old(self).wf(),
        ensures
            final(self).wf(),
            (final(self)@, r) == start_step(
                old(self)@,
                new_email@,
                updating_entry(socket_addr@, old_email@, otp@),
                false,
                registered,
            ) || (old(self)@.registrants.contains_key(new_email@) && (final(self)@, r)
                == start_step(
                old(self)@,
                new_email@,
                updating_entry(socket_addr@, old_email@, otp@),
                true,
                registered,
            )),
    {
        match self.is_email_available(new_email.as_str(), registered) {
            Ok(()) => {
                self.applications.insert_registrant(
                    new_email,
                    RegistrantEntry {
                        socket_addr,
                        display_name: None,
                        password: None,
                        icon: None,
                        phone: None,
                        oauth_provider: OAuthProvider::NoProvider,
                        status: RegistrantStatus::UpdatingEmail { old_email, otp },
                    },
                );
                Ok(())
            },
            Err(e) => Err(e),
        }
    }

    /// Commits an email change, in two turns. Asked with `Requested`, it
    /// checks the entry of the new email against the old email and the
    /// one-time password, and either asks for the persistent store to be
    /// updated or answers with the error; nothing changes. Told `Persisted`,
    /// it retires the entry, with the socket entry that points to it, and
    /// answers `Ok`. Told `PersistFailed`, it answers
    /// `ServerError` and keeps the entry.
    pub fn update_email(
        &mut self,
        old_email: &str,
        new_email: &str,
        otp: &str,
        event: EmailUpdateEvent,
    ) -> (action: EmailUpdateAction)
        requires
            old(self).wf(),
        ensures
            final(self).wf(),
            (final(self)@, action) == email_update_step(
                old(self)@,
                old_email@,
                new_email@,
                otp@,
                event,
                None,
                None,
            ) || (old(self)@.registrant(new_email@) is Some && (final(self)@, action)
                == email_update_step(
                old(self)@,
                old_email@,
                new_email@,
                otp@,
                event,
                old(self)@.registrant(new_email@),
                pointer_of(old(self)@, new_email@),
            )),
    {
        match event {
            EmailUpdateEvent::Requested => {
                let found = self.applications.get_registrant(new_email);
                match confirm_email_update(&found, old_email, otp) {
                    Ok(()) => EmailUpdateAction::Persist,
                    Err(error) => EmailUpdateAction::Reply(Err(error)),
                }
            },
            EmailUpdateEvent::Persisted => {
                let _ = self.applications.remove_registrant(new_email);
                EmailUpdateAction::Reply(Ok(()))
            },
            EmailUpdateEvent::PersistFailed => EmailUpdateAction::Reply(Err(AppError::ServerError)),
        }
    }
}

} // verus!
