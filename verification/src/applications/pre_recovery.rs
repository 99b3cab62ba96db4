//! Password recovery: codes that stand for an email, and back.

use crate::applications::record::{text_of, ClientSocket};
use crate::applications::ApplicationsView;
use crate::db::Db;
use crate::error::AppError;
use vstd::prelude::*;

verus! {

/// The stores after a recovery code was issued for an email, when the
/// store handed out `earlier` as the code that the email had before.
pub open spec fn issue_step(
    before: ApplicationsView,
    email: Seq<char>,
    code: Seq<char>,
    earlier: Option<Seq<char>>,
) -> ApplicationsView {
    let cleared = match earlier {
        Some(stale) => before.without_recovery(stale),
        None => before,
    };
    cleared.with_recovery(code, email).with_recovery(email, code)
}

/// Whether the recovery store holds for a key after what it held before.
pub open spec fn kept(before: ApplicationsView, after: ApplicationsView, key: Seq<char>) -> bool {
    after.recovery_codes.contains_key(key) == before.recovery_codes.contains_key(key)
        && after.recovery_codes[key] == before.recovery_codes[key]
}

/// What the service hands to `reset_password` at each turn.
#[derive(Debug, PartialEq)]
pub enum ResetEvent {
    /// A client asks to set a new password with a code.
    Requested,
    /// The persistent store has the new password of this email.
    Updated { email: String },
    /// The persistent store could not take the new password.
    UpdateFailed(AppError),
}

/// What `reset_password` asks the service to do next.
#[derive(Debug, PartialEq)]
pub enum ResetAction {
    /// Store the new password of this email, then come back.
    UpdatePassword { email: String },
    /// Answer the client: the email whose password was changed, or the error.
    Reply(Result<String, AppError>),
}

/// Decides how a reset goes on, from what the store handed out for the
/// code: with an email, the password of that email is to be stored; without
/// one, the code was not found.
pub fn code_found(found: Option<String>) -> (action: ResetAction)
    ensures
        match found {
            Some(email) => action == (ResetAction::UpdatePassword { email }),
            None => action == ResetAction::Reply(
                Err(AppError::BadReq("Password Reset code not found")),
            ),
        },
{
    match found {
        Some(email) => ResetAction::UpdatePassword { email },
        None => ResetAction::Reply(Err(AppError::BadReq("Password Reset code not found"))),
    }
}

impl Db {
    /// Issues a recovery code for an email, given the code that the store
    /// handed out as the one that the email had before: that code stops
    /// working, then the new code is written for the email and the email for
    /// the new code.
    pub fn issue_code(&mut self, email: String, code: String, earlier: Option<String>)
        requires
            old(self).wf(),
        ensures
            final(self).wf(),
            final(self)@ == issue_step(old(self)@, email@, code@, text_of(earlier)),
    {
        match earlier {
            Some(stale) => {
                self.applications.invalidate_recovery(stale.as_str());
            },
            None => {},
        }
        self.applications.insert_recovery(code.clone(), email.clone());
        self.applications.insert_recovery(email, code);
    }

    /// Issues a recovery code for an email. The code that the email had
    /// before, where the store still has it, stops working; then the code is
    /// written for the email and the email for the code. Afterwards the
    /// email leads to the code and the code to the email, and nothing else
    /// has changed but the earlier code. The endpoint is taken for the record
    /// that the service keeps of the request; nothing is stored under it.
    pub fn request_password_reset(&mut self, _socket_addr: ClientSocket, email: String, code: String)
        requires
            old(self).wf(),
        ensures
            final(self).wf(),
            final(self)@.recovery(email@) == Some(code@),
            code@ != email@ ==> final(self)@.recovery(code@) == Some(email@),
            forall|key: Seq<char>|
                key != email@ && key != code@ && old(self)@.recovery(email@) != Some(key)
                    ==> #[trigger] kept(old(self)@, final(self)@, key),
            final(self)@.socket_index == old(self)@.socket_index,
            final(self)@.registrants == old(self)@.registrants,
            final(self)@.oidconnect == old(self)@.oidconnect,
            final(self)@ == issue_step(old(self)@, email@, code@, None) || (old(self)@.recovery(
                email@,
            ) is Some && final(self)@ == issue_step(
                old(self)@,
                email@,
                code@,
                old(self)@.recovery(email@),
            )),
    {
        let earlier = self.applications.get_recovery(email.as_str());
        self.issue_code(email, code, earlier);
    }

    /// Resets a password with a recovery code, in two turns. Asked with
    /// `Requested`, it looks the code up and either names the email whose
    /// password is to be stored or answers that the code was not found;
    /// nothing changes. Told `Updated`, it retires the code and the email's
    /// entry and answers with the email. Told `UpdateFailed`, it answers with
    /// that error and keeps the code, so that the client can try again. The
    /// endpoint is taken for the record that the service keeps of the reset.
    pub fn reset_password(
        &mut self,
        _socket_addr: ClientSocket,
        code: &str,
        event: ResetEvent,
    ) -> (action: ResetAction)
        requires
            old(self).wf(),
        ensures
            final(self).wf(),
            match event {
                ResetEvent::Requested => final(self)@ == old(self)@ && match action {
                    ResetAction::UpdatePassword { email } => old(self)@.recovery(code@) == Some(
                        email@,
                    ),
                    ResetAction::Reply(r) => r == Err::<String, AppError>(
                        AppError::BadReq("Password Reset code not found"),
                    ),
                },
                ResetEvent::Updated { email } => final(self)@ == old(self)@.without_recovery(
                    email@,
                ).without_recovery(code@) && (action matches ResetAction::Reply(Ok(changed))
                    && changed@ == email@),
                ResetEvent::UpdateFailed(error) => final(self)@ == old(self)@ && action
                    == ResetAction::Reply(Err(error)),
            },
    {
        match event {
            ResetEvent::Requested => code_found(self.applications.get_recovery(code)),
            ResetEvent::Updated { email } => {
                self.applications.invalidate_recovery(email.as_str());
                self.applications.invalidate_recovery(code);
                ResetAction::Reply(Ok(email))
            },
            ResetEvent::UpdateFailed(error) => ResetAction::Reply(Err(error)),
        }
    }
}

} // verus!
