//! Authorization attempts that wait for the provider's callback.

use crate::applications::record::{ClientSocket, OAuthProvider, OidcInfo, OidcInfoView};
use crate::db::Db;
use vstd::prelude::*;

verus! {

impl Db {
    /// Records an authorization attempt under its CSRF state. Every attempt
    /// has a state of its own, so nothing is checked.
    pub fn add_oidc_info(
        &mut self,
        socket_addr: ClientSocket,
        csrf_state: String,
        code_verifier: String,
        nonce: String,
        provider: OAuthProvider,
    )
        requires
            old(self).wf(),
        ensures
            final(self).wf(),
            final(self)@ == old(self)@.with_attempt(
                csrf_state@,
                OidcInfoView {
                    socket_addr: socket_addr@,
                    code_verifier: code_verifier@,
                    nonce: nonce@,
                    provider,
                },
            ),
    {
        self.applications.insert_attempt(
            csrf_state,
            OidcInfo { socket_addr, code_verifier, nonce, provider },
        );
    }

    /// The attempt that a callback's CSRF state belongs to. It stays in the
    /// store, so that a callback delivered twice finds it again. A state that
    /// was never recorded, or was removed, finds nothing.
    pub fn get_oidc_info(&self, csrf_state: &str) -> (found: Option<OidcInfo>)
        ensures
            found matches Some(info) ==> self@.attempt(csrf_state@) == Some(info@),
    {
        self.applications.get_attempt(csrf_state)
    }

    /// Forgets an attempt once the work that followed its callback is done.
    pub fn remove_oidc_info(&mut self, csrf_state: &str)
        requires
            old(self).wf(),
        ensures
            final(self).wf(),
            final(self)@ == old(self)@.without_attempt(csrf_state@),
    {
        self.applications.remove_attempt(csrf_state);
    }
}

} // verus!
