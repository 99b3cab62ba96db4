//! The last step of a registration: a username turns the pending entry into
//! an account.

use crate::applications::record::{RegistrantEntry, RegistrantEntryView, text_of};
use crate::applications::registration::found_view;
use crate::applications::{retired, ApplicationsView};
use crate::bucket::object::{object_name, prepared, Upload};
use crate::db::Db;
use crate::error::AppError;
use crate::users::{id_text, new_id, now, User, uuid_text};
use crate::validation::image::{held, icon_outcome, stored_name};
use bytes::Bytes;
use vstd::prelude::*;
use vstd::string::StrSliceExecFns;

verus! {

/// What follows the last occurrence of a separator in a text; the whole text
/// where the separator does not occur.
pub open spec fn after_last(text: Seq<char>, separator: char) -> Seq<char>
    decreases text.len(),
{
    if text.len() == 0 {
        text
    } else if text.last() == separator {
        Seq::empty()
    } else {
        after_last(text.drop_last(), separator).push(text.last())
    }
}

/// The place of the first occurrence of a separator in a text; the length of
/// the text where the separator does not occur.
pub open spec fn first_index(text: Seq<char>, separator: char) -> int
    decreases text.len(),
{
    if text.len() == 0 {
        0
    } else {
        let before = first_index(text.drop_last(), separator);
        if before < text.len() - 1 {
            before
        } else if text.last() == separator {
            text.len() - 1
        } else {
            text.len() as int
        }
    }
}

/// The file name that an icon's address ends with: what follows the last
/// slash, up to the first equals sign.
pub open spec fn file_name_of(url: Seq<char>) -> Seq<char> {
    let tail = after_last(url, '/');
    tail.take(first_index(tail, '='))
}

/// The file name that an icon's address ends with.
pub fn icon_file_name(url: &str) -> (r: String)
    ensures
        r@ == file_name_of(url@),
{
    let n = url.unicode_len();
    let mut i: usize = 0;
    let mut start: usize = 0;
    let mut end: usize = 0;
    for c in it: url.chars()
        invariant
            it.seq() == url@,
            n == url@.len(),
            i == it.index(),
            start <= end <= i <= n,
            after_last(url@.take(i as int), '/') == url@.subrange(start as int, i as int),
            end - start == first_index(url@.subrange(start as int, i as int), '='),
    {
        proof {
            let grown = url@.take(i + 1);
            assert(grown.drop_last() =~= url@.take(i as int));
            assert(grown.last() == c);
            let tail = url@.subrange(start as int, i + 1);
            assert(tail.drop_last() =~= url@.subrange(start as int, i as int));
            assert(tail.last() == c);
            assert(url@.subrange(start as int, i as int).push(c) =~= tail);
            assert(url@.subrange(i + 1, i + 1) =~= Seq::<char>::empty());
        }
        if c == '/' {
            start = i + 1;
            end = i + 1;
        } else if end == i && c != '=' {
            end = i + 1;
        }
        i += 1;
    }
    proof {
        assert(url@.take(n as int) =~= url@);
        assert(url@.subrange(start as int, n as int).take(end - start) =~= url@.subrange(
            start as int,
            end as int,
        ));
    }
    url.substring_char(start, end).to_owned()
}

/// What a registration carries from one turn of its last step to the next.
#[derive(Clone, Debug, PartialEq)]
pub struct PendingUser {
    /// The identifier that the account will have.
    pub id: u128,
    /// The pending entry as the ledger handed it out.
    pub entry: RegistrantEntry,
}

/// What the service hands to `set_registrant_username` at each turn.
#[derive(Debug, PartialEq)]
pub enum UsernameEvent {
    /// A client asks for a username; the persistent store said whether it is
    /// taken.
    Requested { username_taken: bool },
    /// The icon was fetched from its address, or could not be.
    Downloaded { pending: PendingUser, data: Option<Bytes> },
    /// Object storage took the icon and gave its address, or did not.
    Uploaded { pending: PendingUser, url: Option<String> },
    /// The persistent store has the account.
    Created { user: User },
}

/// What `set_registrant_username` asks the service to do next.
#[derive(Debug, PartialEq)]
pub enum UsernameAction {
    /// Fetch the icon from this address, then come back with its bytes.
    Download { url: String, pending: PendingUser },
    /// Send the fetched bytes to object storage, then come back with the
    /// address that it gave.
    Upload { upload: Upload, pending: PendingUser },
    /// Create this account in the persistent store, then come back.
    Create { user: User },
    /// Answer the client: the new account, or the error.
    Reply(Result<User, AppError>),
}

/// The error that a request for a username is answered with at once, given
/// what the ledger handed out for the email and what the persistent store
/// said of the username; none where the registration can go on. An email
/// without a pending entry finds no user, whatever is known of the username;
/// then comes a username that is taken, then an entry without a display name
/// (an email change).
pub open spec fn refusal(found: Option<RegistrantEntryView>, username_taken: bool) -> Option<AppError> {
    match found {
        None => Some(AppError::UserNotFound),
        Some(entry) => if username_taken {
            Some(AppError::UsernameTaken)
        } else if entry.display_name is None {
            Some(AppError::ServerError)
        } else {
            None
        },
    }
}

/// Decides whether a registration can go on to become an account, from
/// what the ledger handed out for the email and what the persistent store
/// said of the username.
pub fn accept(found: Option<RegistrantEntry>, username_taken: bool) -> (r: Result<
    RegistrantEntry,
    AppError,
>)
    ensures
        match refusal(found_view(found), username_taken) {
            Some(error) => r == Err::<RegistrantEntry, AppError>(error),
            None => found is Some && r == Ok::<RegistrantEntry, AppError>(found->0),
        },
{
    match found {
        None => Err(AppError::UserNotFound),
        Some(entry) => {
            if username_taken {
                Err(AppError::UsernameTaken)
            } else if entry.display_name.is_none() {
                Err(AppError::ServerError)
            } else {
                Ok(entry)
            }
        },
    }
}

/// Whether an account is the one that a pending entry becomes: name,
/// password and provider of the entry, the given email, username, identifier
/// and icon, and nothing else filled in.
pub open spec fn account_of(
    user: User,
    entry: RegistrantEntryView,
    email: Seq<char>,
    username: Seq<char>,
    id: u128,
    icon: Option<Seq<char>>,
) -> bool {
    &&& user.id == id
    &&& Some(user.display_name@) == entry.display_name
    &&& user.email@ == email
    &&& user.birth_date is None
    &&& text_of(user.password) == entry.password
    &&& user.username@ == username
    &&& user.banner is None
    &&& text_of(user.icon) == icon
    &&& user.bio is None
    &&& user.legal_name is None
    &&& user.gender is None
    &&& user.phone is None
    &&& user.country is None
    &&& user.oauth_provider == entry.oauth_provider
}

/// What one turn of the last step may give: the answer or the next piece of
/// outside work, by the event, and the stores after it.
pub open spec fn username_turn(
    before: ApplicationsView,
    after: ApplicationsView,
    email: Seq<char>,
    username: Seq<char>,
    event: UsernameEvent,
    action: UsernameAction,
) -> bool {
    match event {
        UsernameEvent::Requested { username_taken } => after == before && match action {
            UsernameAction::Reply(Err(error)) => Some(error) == refusal(None, username_taken) || (
            before.registrant(email) is Some && Some(error) == refusal(
                before.registrant(email),
                username_taken,
            )),
            UsernameAction::Download { url, pending } => before.registrant(email)
                == Some(pending.entry@) && refusal(Some(pending.entry@), username_taken)
                is None && pending.entry@.icon == Some(url@),
            UsernameAction::Create { user } => before.registrant(email) is Some && refusal(
                before.registrant(email),
                username_taken,
            ) is None && before.registrant(email)->0.icon is None && account_of(
                user,
                before.registrant(email)->0,
                email,
                username,
                user.id,
                None,
            ),
            _ => false,
        },
        UsernameEvent::Downloaded { pending, data } => after == before && match action {
            UsernameAction::Reply(Err(error)) => if data is None || pending.entry.icon
                is None {
                error == AppError::ServerError
            } else {
                error matches AppError::Validation(reason) && icon_outcome(
                    held(data->0),
                ) == Err::<Seq<char>, _>(reason@)
            },
            UsernameAction::Upload { upload, pending: carried } => carried == pending
                && data is Some && pending.entry.icon is Some && prepared(
                Ok(upload),
                icon_outcome(held(data->0)),
                object_name(
                    "icon"@,
                    uuid_text(pending.id),
                    stored_name(file_name_of(pending.entry.icon->0@), held(data->0)),
                ),
            ),
            _ => false,
        },
        UsernameEvent::Uploaded { pending, url } => after == before && match action {
            UsernameAction::Reply(Err(error)) => error == AppError::ServerError && (url
                is None || pending.entry.display_name is None),
            UsernameAction::Create { user } => url is Some && account_of(
                user,
                pending.entry@,
                email,
                username,
                pending.id,
                text_of(url),
            ),
            _ => false,
        },
        UsernameEvent::Created { user } => action == UsernameAction::Reply(Ok(user)) && retired(
            before,
            after,
            user.email@,
        ),
    }
}

/// Builds the account of a pending entry that has a display name.
fn account(pending: PendingUser, email: String, username: String, icon: Option<String>) -> (user: User)
    requires
        pending.entry.display_name is Some,
    ensures
        account_of(user, pending.entry@, email@, username@, pending.id, text_of(icon)),
{
    let PendingUser { id, entry } = pending;
    let display_name = match entry.display_name {
        Some(name) => name,
        None => String::new(),
    };
    User {
        id,
        display_name,
        email,
        birth_date: None,
        password: entry.password,
        username,
        banner: None,
        icon,
        bio: None,
        legal_name: None,
        gender: None,
        phone: None,
        country: None,
        oauth_provider: entry.oauth_provider,
        created: now(),
    }
}

impl Db {
    /// Turns the pending registration of an email into an account, over as
    /// many turns as the outside work takes.
    ///
    /// - `Requested`: an email without a pending entry gives `UserNotFound`,
    ///   whatever is known of the username; with an entry, a taken username
    ///   gives `UsernameTaken` and an entry without a display name (an email
    ///   change) `ServerError`. Otherwise the entry gets a new identifier;
    ///   with an icon address it asks for the icon to be fetched, without one
    ///   for the account to be created.
    /// - `Downloaded`: a failed fetch gives `ServerError`, bytes that cannot
    ///   be an icon the validation error; otherwise it asks for the upload of
    ///   `icon/<id>-<file name>`.
    /// - `Uploaded`: a failed upload gives `ServerError`; otherwise it asks
    ///   for the account to be created with the address that storage gave.
    /// - `Created`: the entry is retired, with the socket entry that points
    ///   to it, and the account is the answer.
    ///
    /// Only the last turn changes the stores.
    pub fn set_registrant_username(
        &mut self,
        email: String,
        username: String,
        event: UsernameEvent,
    ) -> (action: UsernameAction)
        requires
            old(self).wf(),
        ensures
            final(self).wf(),
            username_turn(old(self)@, final(self)@, email@, username@, event, action),
    {
        match event {
            UsernameEvent::Requested { username_taken } => {
                let found = self.applications.get_registrant(email.as_str());
                let entry = match accept(found, username_taken) {
                    Ok(entry) => entry,
                    Err(error) => {
                        return UsernameAction::Reply(Err(error));
                    },
                };
                let url = match &entry.icon {
                    Some(url) => Some(url.clone()),
                    None => None,
                };
                let pending = PendingUser { id: new_id(), entry };
                match url {
                    Some(url) => UsernameAction::Download { url, pending },
                    None => UsernameAction::Create { user: account(pending, email, username, None) },
                }
            },
            UsernameEvent::Downloaded { pending, data } => {
                let data = match data {
                    Some(data) => data,
                    None => {
                        return UsernameAction::Reply(Err(AppError::ServerError));
                    },
                };
                let filename = match &pending.entry.icon {
                    Some(url) => icon_file_name(url.as_str()),
                    None => {
                        return UsernameAction::Reply(Err(AppError::ServerError));
                    },
                };
                let id = id_text(pending.id);
                match self.upload_icon(&data, filename, id.as_str()) {
                    Ok(upload) => UsernameAction::Upload { upload, pending },
                    Err(error) => UsernameAction::Reply(Err(error)),
                }
            },
            UsernameEvent::Uploaded { pending, url } => {
                if url.is_none() || pending.entry.display_name.is_none() {
                    return UsernameAction::Reply(Err(AppError::ServerError));
                }
                UsernameAction::Create { user: account(pending, email, username, url) }
            },
            UsernameEvent::Created { user } => {
                let _ = self.applications.remove_registrant(user.email.as_str());
                UsernameAction::Reply(Ok(user))
            },
        }
    }
}

} // verus!
