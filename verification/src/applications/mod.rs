//! Pending account operations, kept in memory until they are committed, expire
//! or lose their connection.

pub mod finalize;
pub mod laws;
pub mod post_oidc;
pub mod pre_oidc;
pub mod pre_recovery;
pub mod record;
pub mod registration;
pub mod store;
pub mod update_email;

use crate::applications::record::{
    ClientSocket, DropType, DropTypeView, OidcInfo, OidcInfoView, Record, RecordView,
    RegistrantEntry, RegistrantEntryView,
};
use crate::applications::store::Store;
use crate::db::Db;
use crate::strings::same_text;
use vstd::prelude::*;

verus! {

/// The number of entries that each store keeps at most.
pub const STORE_CAPACITY: u64 = 4096;

/// Seconds for which a pending registration and its socket entry are kept.
pub const REGISTRATION_SECONDS: u64 = 3600;

/// Seconds for which an authorization attempt or a recovery code is kept.
pub const SHORT_LIVED_SECONDS: u64 = 300;

/// The registration that a ledger holds for an email, if it holds one.
pub open spec fn registrant_at(ledger: Map<Seq<char>, RecordView>, email: Seq<char>) -> Option<
    RegistrantEntryView,
> {
    if ledger.contains_key(email) {
        match ledger[email] {
            RecordView::Registrant(entry) => Some(entry),
            _ => None,
        }
    } else {
        None
    }
}

/// What a socket index says that an endpoint created, if anything.
pub open spec fn created_by(index: Map<Seq<char>, RecordView>, socket: Seq<char>) -> Option<
    DropTypeView,
> {
    if index.contains_key(socket) {
        match index[socket] {
            RecordView::Socket(kind) => Some(kind),
            _ => None,
        }
    } else {
        None
    }
}

/// The authorization attempt that a store holds for a CSRF state, if any.
pub open spec fn attempt_at(attempts: Map<Seq<char>, RecordView>, state: Seq<char>) -> Option<
    OidcInfoView,
> {
    if attempts.contains_key(state) {
        match attempts[state] {
            RecordView::Oidc(info) => Some(info),
            _ => None,
        }
    } else {
        None
    }
}

/// What a recovery store maps a code or an email to, if anything.
pub open spec fn counterpart(codes: Map<Seq<char>, RecordView>, key: Seq<char>) -> Option<
    Seq<char>,
> {
    if codes.contains_key(key) {
        match codes[key] {
            RecordView::Recovery(other) => Some(other),
            _ => None,
        }
    } else {
        None
    }
}

/// What has been written to the four stores and not removed since.
pub struct ApplicationsView {
    pub socket_index: Map<Seq<char>, RecordView>,
    pub registrants: Map<Seq<char>, RecordView>,
    pub oidconnect: Map<Seq<char>, RecordView>,
    pub recovery_codes: Map<Seq<char>, RecordView>,
}

impl ApplicationsView {
    /// Nothing written anywhere.
    pub open spec fn empty() -> Self {
        ApplicationsView {
            socket_index: Map::empty(),
            registrants: Map::empty(),
            oidconnect: Map::empty(),
            recovery_codes: Map::empty(),
        }
    }

    /// Every store holds records of its own kind only.
    pub open spec fn sorted(self) -> bool {
        &&& forall|key: Seq<char>| #[trigger]
            self.socket_index.contains_key(key) ==> self.socket_index[key] is Socket
        &&& forall|key: Seq<char>| #[trigger]
            self.registrants.contains_key(key) ==> self.registrants[key] is Registrant
        &&& forall|key: Seq<char>| #[trigger]
            self.oidconnect.contains_key(key) ==> self.oidconnect[key] is Oidc
        &&& forall|key: Seq<char>| #[trigger]
            self.recovery_codes.contains_key(key) ==> self.recovery_codes[key] is Recovery
    }

    /// The registration written for an email.
    pub open spec fn registrant(self, email: Seq<char>) -> Option<RegistrantEntryView> {
        registrant_at(self.registrants, email)
    }

    /// After a registration was written: the ledger holds it under the email,
    /// and the socket index points from its endpoint to the email.
    pub open spec fn with_registrant(self, email: Seq<char>, entry: RegistrantEntryView) -> Self {
        ApplicationsView {
            socket_index: self.socket_index.insert(
                entry.socket_addr,
                RecordView::Socket(DropTypeView::Registrant(email)),
            ),
            registrants: self.registrants.insert(email, RecordView::Registrant(entry)),
            ..self
        }
    }

    /// After the registration of an email was retired together with the socket
    /// entry of the endpoint that it came from.
    pub open spec fn without_registrant(self, email: Seq<char>, socket: Seq<char>) -> Self {
        ApplicationsView {
            socket_index: self.socket_index.remove(socket),
            registrants: self.registrants.remove(email),
            ..self
        }
    }

    /// After the ledger alone dropped an email.
    pub open spec fn without_email(self, email: Seq<char>) -> Self {
        ApplicationsView { registrants: self.registrants.remove(email), ..self }
    }

    /// After the socket index alone dropped an endpoint.
    pub open spec fn without_socket(self, socket: Seq<char>) -> Self {
        ApplicationsView { socket_index: self.socket_index.remove(socket), ..self }
    }

    /// The authorization attempt written for a CSRF state.
    pub open spec fn attempt(self, state: Seq<char>) -> Option<OidcInfoView> {
        attempt_at(self.oidconnect, state)
    }

    /// After an authorization attempt was written under its CSRF state.
    pub open spec fn with_attempt(self, state: Seq<char>, info: OidcInfoView) -> Self {
        ApplicationsView { oidconnect: self.oidconnect.insert(state, RecordView::Oidc(info)), ..self }
    }

    /// After the attempt of a CSRF state was dropped.
    pub open spec fn without_attempt(self, state: Seq<char>) -> Self {
        ApplicationsView { oidconnect: self.oidconnect.remove(state), ..self }
    }

    /// What the recovery store maps a code or an email to.
    pub open spec fn recovery(self, key: Seq<char>) -> Option<Seq<char>> {
        counterpart(self.recovery_codes, key)
    }

    /// After the recovery store was given a value for a key.
    pub open spec fn with_recovery(self, key: Seq<char>, other: Seq<char>) -> Self {
        ApplicationsView {
            recovery_codes: self.recovery_codes.insert(key, RecordView::Recovery(other)),
            ..self
        }
    }

    /// After the recovery store dropped a key.
    pub open spec fn without_recovery(self, key: Seq<char>) -> Self {
        ApplicationsView { recovery_codes: self.recovery_codes.remove(key), ..self }
    }
}

/// What the socket index handed out for an endpoint, viewed.
pub open spec fn pointer_view(pointer: Option<DropType>) -> Option<DropTypeView> {
    match pointer {
        Some(kind) => Some(kind@),
        None => None,
    }
}

/// What the socket index holds for the endpoint of the registration that
/// the ledger holds for an email; nothing where the ledger holds none.
pub open spec fn pointer_of(before: ApplicationsView, email: Seq<char>) -> Option<DropTypeView> {
    match before.registrant(email) {
        Some(entry) => created_by(before.socket_index, entry.socket_addr),
        None => None,
    }
}

/// The stores after the registration of an email was retired, when the
/// ledger handed out `found` for the email and the socket index `pointer`
/// for the endpoint of what was found. The email leaves the ledger. The
/// endpoint leaves the index where the pointer names this email; a pointer
/// that names another email is that email's own and stays.
pub open spec fn retire_step(
    before: ApplicationsView,
    email: Seq<char>,
    found: Option<RegistrantEntryView>,
    pointer: Option<DropTypeView>,
) -> ApplicationsView {
    match found {
        Some(entry) => if pointer == Some(DropTypeView::Registrant(email)) {
            before.without_registrant(email, entry.socket_addr)
        } else {
            before.without_email(email)
        },
        None => before.without_email(email),
    }
}

/// Whether the stores are what retiring the registration of an email may
/// leave: what it leaves when the stores handed out nothing, or what it
/// leaves when they handed out what they hold.
pub open spec fn retired(before: ApplicationsView, after: ApplicationsView, email: Seq<char>) -> bool {
    after == retire_step(before, email, None, None) || (before.registrant(email) is Some && after
        == retire_step(before, email, before.registrant(email), pointer_of(before, email)))
}

/// The names of the four stores.
#[derive(Clone, Copy, PartialEq, Eq, Debug, Structural)]
pub enum StoreKind {
    /// From an endpoint to what it created.
    SocketIndex,
    /// From an email to its pending registration.
    Registrants,
    /// From a CSRF state to its authorization attempt.
    Oidconnect,
    /// From a recovery code to its email, and back.
    RecoveryCodes,
}

/// The four stores of pending operations.
pub struct Applications {
    socket_index: Store,
    registrants: Store,
    oidconnect: Store,
    recovery_codes: Store,
}

impl View for Applications {
    type V = ApplicationsView;

    closed spec fn view(&self) -> ApplicationsView {
        ApplicationsView {
            socket_index: store::written(self.socket_index),
            registrants: store::written(self.registrants),
            oidconnect: store::written(self.oidconnect),
            recovery_codes: store::written(self.recovery_codes),
        }
    }
}

impl Applications {
    /// The number of entries that a store was built to keep at most.
    pub closed spec fn capacity(&self, kind: StoreKind) -> u64 {
        match kind {
            StoreKind::SocketIndex => store::max_capacity(self.socket_index),
            StoreKind::Registrants => store::max_capacity(self.registrants),
            StoreKind::Oidconnect => store::max_capacity(self.oidconnect),
            StoreKind::RecoveryCodes => store::max_capacity(self.recovery_codes),
        }
    }

    /// The number of seconds that a store was built to keep an entry for.
    pub closed spec fn seconds(&self, kind: StoreKind) -> u64 {
        match kind {
            StoreKind::SocketIndex => store::time_to_live(self.socket_index),
            StoreKind::Registrants => store::time_to_live(self.registrants),
            StoreKind::Oidconnect => store::time_to_live(self.oidconnect),
            StoreKind::RecoveryCodes => store::time_to_live(self.recovery_codes),
        }
    }

    /// Every store has the capacity and the time to live that it is meant to
    /// have (an hour for registrations and their socket entries, five minutes
    /// for authorization attempts and recovery codes) and holds records of its
    /// own kind only.
    pub open spec fn wf(&self) -> bool {
        &&& self@.sorted()
        &&& self.capacity(StoreKind::SocketIndex) == STORE_CAPACITY
        &&& self.capacity(StoreKind::Registrants) == STORE_CAPACITY
        &&& self.capacity(StoreKind::Oidconnect) == STORE_CAPACITY
        &&& self.capacity(StoreKind::RecoveryCodes) == STORE_CAPACITY
        &&& self.seconds(StoreKind::SocketIndex) == REGISTRATION_SECONDS
        &&& self.seconds(StoreKind::Registrants) == REGISTRATION_SECONDS
        &&& self.seconds(StoreKind::Oidconnect) == SHORT_LIVED_SECONDS
        &&& self.seconds(StoreKind::RecoveryCodes) == SHORT_LIVED_SECONDS
    }

    /// Four empty stores.
    pub fn new() -> (r: Self)
        ensures
            r.wf(),
            r@ == ApplicationsView::empty(),
    {
        Applications {
            socket_index: store::build(STORE_CAPACITY, REGISTRATION_SECONDS),
            registrants: store::build(STORE_CAPACITY, REGISTRATION_SECONDS),
            oidconnect: store::build(STORE_CAPACITY, SHORT_LIVED_SECONDS),
            recovery_codes: store::build(STORE_CAPACITY, SHORT_LIVED_SECONDS),
        }
    }

    /// Writes a registration under its email, and the email under the endpoint
    /// that it came from. An earlier registration of the email is overwritten.
    pub fn insert_registrant(&mut self, email: String, metadata: RegistrantEntry)
        requires
            old(self).wf(),
        ensures
            final(self).wf(),
            final(self)@ == old(self)@.with_registrant(email@, metadata@),
    {
        let socket = metadata.socket_addr.addr.clone();
        store::insert(&mut self.socket_index, socket, Record::Socket(DropType::Registrant(email.clone())));
        store::insert(&mut self.registrants, email, Record::Registrant(metadata));
    }

    /// Whether the ledger can still hand out a registration for the email.
    /// An email that was never written, or was retired, is never present.
    pub fn is_email_present(&self, email: &str) -> (present: bool)
        ensures
            present ==> self@.registrants.contains_key(email@),
            present && self.wf() ==> self@.registrant(email@) is Some,
    {
        store::contains_key(&self.registrants, email)
    }

    /// The registration of an email, where the ledger can still hand it out.
    pub fn get_registrant(&self, email: &str) -> (found: Option<RegistrantEntry>)
        ensures
            found matches Some(entry) ==> self@.registrant(email@) == Some(entry@),
    {
        // Whether the ledger still hands the entry out is the ledger's to
        // say: an entry leaves it when its hour is over, or to make room.
        let handed_out = store::get(&self.registrants, email);
        record::registrant_in(handed_out)
    }

    /// What the socket index can still hand out for an endpoint. The entry
    /// stays in the index.
    pub fn get_socket(&self, socket: &ClientSocket) -> (found: Option<DropType>)
        ensures
            found matches Some(kind) ==> created_by(self@.socket_index, socket@) == Some(kind@),
    {
        let handed_out = store::get(&self.socket_index, socket.as_str());
        record::socket_in(handed_out)
    }

    /// Retires the pointer of a registration that has left the ledger, given
    /// the email of the registration, its endpoint, and what the socket index
    /// handed out for the endpoint. The endpoint leaves the index where the
    /// index named this email for it. A pointer that names another email
    /// belongs to a later registration from the same endpoint and stays, and
    /// so does the index where it handed out nothing.
    pub fn retire_pointer(&mut self, email: &str, socket: &ClientSocket, pointer: Option<DropType>)
        requires
            old(self).wf(),
        ensures
            final(self).wf(),
            final(self)@ == if pointer_view(pointer) == Some(DropTypeView::Registrant(email@)) {
                old(self)@.without_socket(socket@)
            } else {
                old(self)@
            },
    {
        match pointer {
            Some(DropType::Registrant(named)) => {
                if same_text(named.as_str(), email) {
                    store::invalidate(&mut self.socket_index, socket.as_str());
                }
            },
            None => {},
        }
    }

    /// Retires the registration of an email: it leaves the ledger in any
    /// case, and is returned where the ledger still had it. Its endpoint
    /// leaves the socket index where the index still names this email for
    /// it; the pointer of a later registration from the same endpoint stays.
    pub fn remove_registrant(&mut self, email: &str) -> (found: Option<RegistrantEntry>)
        requires
            old(self).wf(),
        ensures
            final(self).wf(),
            final(self)@.registrants == old(self)@.registrants.remove(email@),
            final(self)@.oidconnect == old(self)@.oidconnect,
            final(self)@.recovery_codes == old(self)@.recovery_codes,
            retired(old(self)@, final(self)@, email@),
            match found {
                Some(entry) => old(self)@.registrant(email@) == Some(entry@) && (final(self)@
                    == old(self)@.without_email(email@) || (created_by(
                    old(self)@.socket_index,
                    entry@.socket_addr,
                ) == Some(DropTypeView::Registrant(email@)) && final(self)@ == old(
                    self,
                )@.without_registrant(email@, entry@.socket_addr))),
                None => final(self)@ == old(self)@.without_email(email@),
            },
    {
        let handed_out = store::remove(&mut self.registrants, email);
        match record::registrant_in(handed_out) {
            Some(entry) => {
                let pointer = self.get_socket(&entry.socket_addr);
                self.retire_pointer(email, &entry.socket_addr, pointer);
                Some(entry)
            },
            None => None,
        }
    }

    /// Drops an email from the ledger and leaves the socket index alone.
    pub fn forget_email(&mut self, email: &str)
        requires
            old(self).wf(),
        ensures
            final(self).wf(),
            final(self)@ == old(self)@.without_email(email@),
    {
        let _ = store::remove(&mut self.registrants, email);
    }

    /// Drops an endpoint from the socket index and returns what the index
    /// still said that it had created.
    pub fn take_socket(&mut self, socket: &ClientSocket) -> (found: Option<DropType>)
        requires
            old(self).wf(),
        ensures
            final(self).wf(),
            final(self)@ == old(self)@.without_socket(socket@),
            found matches Some(kind) ==> created_by(old(self)@.socket_index, socket@) == Some(kind@),
    {
        let handed_out = store::remove(&mut self.socket_index, socket.as_str());
        record::socket_in(handed_out)
    }

    /// Writes an authorization attempt under its CSRF state.
    pub fn insert_attempt(&mut self, state: String, info: OidcInfo)
        requires
            old(self).wf(),
        ensures
            final(self).wf(),
            final(self)@ == old(self)@.with_attempt(state@, info@),
    {
        store::insert(&mut self.oidconnect, state, Record::Oidc(info));
    }

    /// The attempt of a CSRF state, where the store can still hand it out.
    pub fn get_attempt(&self, state: &str) -> (found: Option<OidcInfo>)
        ensures
            found matches Some(info) ==> self@.attempt(state@) == Some(info@),
    {
        // Whether the store still hands the attempt out is the store's to
        // say: an attempt leaves it after five minutes, or to make room.
        let handed_out = store::get(&self.oidconnect, state);
        record::attempt_in(handed_out)
    }

    /// Drops the attempt of a CSRF state.
    pub fn remove_attempt(&mut self, state: &str)
        requires
            old(self).wf(),
        ensures
            final(self).wf(),
            final(self)@ == old(self)@.without_attempt(state@),
    {
        store::invalidate(&mut self.oidconnect, state);
    }

    /// What the recovery store still hands out for a code or an email.
    pub fn get_recovery(&self, key: &str) -> (found: Option<String>)
        ensures
            found matches Some(other) ==> self@.recovery(key@) == Some(other@),
    {
        // Whether the store still hands the entry out is the store's to
        // say: an entry leaves it after five minutes, or to make room.
        let handed_out = store::get(&self.recovery_codes, key);
        record::recovery_in(handed_out)
    }

    /// Writes a value for a code or an email into the recovery store.
    pub fn insert_recovery(&mut self, key: String, other: String)
        requires
            old(self).wf(),
        ensures
            final(self).wf(),
            final(self)@ == old(self)@.with_recovery(key@, other@),
    {
        store::insert(&mut self.recovery_codes, key, Record::Recovery(other));
    }

    /// Drops a code or an email from the recovery store.
    pub fn invalidate_recovery(&mut self, key: &str)
        requires
            old(self).wf(),
        ensures
            final(self).wf(),
            final(self)@ == old(self)@.without_recovery(key@),
    {
        store::invalidate(&mut self.recovery_codes, key);
    }
}

/// The stores after a connection closed, when the socket index handed out
/// `found` for its endpoint: the endpoint leaves the index, and the
/// registration that it had created leaves the ledger.
pub open spec fn purge_step(
    before: ApplicationsView,
    socket: Seq<char>,
    found: Option<DropTypeView>,
) -> ApplicationsView {
    match found {
        Some(DropTypeView::Registrant(email)) => before.without_socket(socket).without_email(email),
        None => before.without_socket(socket),
    }
}

impl Db {
    /// Retires what a closed connection's endpoint had created, given what
    /// the socket index handed out for the endpoint: the registration of the
    /// email that it names leaves the ledger. Where the index handed out
    /// nothing, nothing changes.
    pub fn purge_found(&mut self, found: Option<DropType>)
        requires
            old(self).wf(),
        ensures
            final(self).wf(),
            final(self)@ == match found {
                Some(DropType::Registrant(email)) => old(self)@.without_email(email@),
                None => old(self)@,
            },
    {
        match found {
            Some(DropType::Registrant(email)) => {
                self.applications.forget_email(email.as_str());
            },
            None => {},
        }
    }

    /// Called when a connection is torn down: its endpoint leaves the socket
    /// index in any case, and whatever the index still said that it had
    /// created is retired. An endpoint that the socket index does not know,
    /// or whose record is already gone, costs nothing.
    pub fn drop_application(&mut self, socket_addr: &ClientSocket)
        requires
            old(self).wf(),
        ensures
            final(self).wf(),
            final(self)@.socket_index == old(self)@.socket_index.remove(socket_addr@),
            final(self)@.oidconnect == old(self)@.oidconnect,
            final(self)@.recovery_codes == old(self)@.recovery_codes,
            final(self)@ == purge_step(old(self)@, socket_addr@, None) || (created_by(
                old(self)@.socket_index,
                socket_addr@,
            ) is Some && final(self)@ == purge_step(
                old(self)@,
                socket_addr@,
                created_by(old(self)@.socket_index, socket_addr@),
            )),
    {
        let found = self.applications.take_socket(socket_addr);
        self.purge_found(found);
    }
}

} // verus!
