//! Registration that starts from an OpenID Connect sign-in.

use crate::applications::record::{
    ClientSocket, OAuthProvider, RegistrantEntry, RegistrantEntryView, RegistrantStatus,
    RegistrantStatusView,
};
use crate::applications::registration::start_step;
use crate::db::Db;
use crate::error::AppError;
use vstd::prelude::*;

verus! {

/// The registration that a sign-in through a provider starts with: no
/// one-time password is asked for.
pub open spec fn connected_entry(
    socket: Seq<char>,
    name: Seq<char>,
    icon: Seq<char>,
    provider: OAuthProvider,
) -> RegistrantEntryView {
    RegistrantEntryView {
        socket_addr: socket,
        display_name: Some(name),
        password: None,
        icon: Some(icon),
        phone: None,
        oauth_provider: provider,
        status: RegistrantStatusView::OpenIDConnected,
    }
}

impl Db {
    /// Starts a registration for an identity that a provider vouched for: on
    /// an available email, writes a registration with status
    /// `OpenIDConnected`; on another, fails with `EmailTaken` and changes
    /// nothing. `registered` is what the persistent store said of the email.
    pub fn create_registrant_oidc(
        &mut self,
        socket_addr: ClientSocket,
        name: String,
        email: String,
        icon: String,
        oauth_provider: OAuthProvider,
        registered: bool,
    ) -> (r: Result<(), AppError>)
        requires
            old(self).wf(),
        ensures
            final(self).wf(),
            (final(self)@, r) == start_step(
                old(self)@,
                email@,
                connected_entry(socket_addr@, name@, icon@, oauth_provider),
                false,
                registered,
            ) || (old(self)@.registrants.contains_key(email@) && (final(self)@, r) == start_step(
                old(self)@,
                email@,
                connected_entry(socket_addr@, name@, icon@, oauth_provider),
                true,
                registered,
            )),
    {
        match self.is_email_available(email.as_str(), registered) {
            Ok(()) => {
                self.applications.insert_registrant(
                    email,
                    RegistrantEntry {
                        socket_addr,
                        display_name: Some(name),
                        password: None,
                        icon: Some(icon),
                        phone: None,
                        oauth_provider,
                        status: RegistrantStatus::OpenIDConnected,
                    },
                );
                Ok(())
            },
            Err(e) => Err(e),
        }
    }
}

} // verus!
