//! Signing in and out: what the requests ask for.

use crate::error::AppError;
use crate::server::{check_password, password_matches};
use crate::users::{parse_id, uuid_of};
use vstd::prelude::*;

verus! {

#[derive(Clone, Debug, PartialEq)]
pub struct LoginRequest {
    pub email: Option<String>,
    pub username: Option<String>,
    pub password: String,
}

#[derive(Clone, Debug, PartialEq)]
pub struct LogoutDevicesRequest {
    pub sessions: Vec<String>,
    pub password: String,
}

#[derive(Clone, Debug, PartialEq)]
pub struct LogoutAllRequest {
    pub password: String,
}

/// What a user signs in with.
#[derive(Clone, Debug, PartialEq)]
pub enum Credential {
    Email(String),
    Username(String),
}

/// Tells what a user signs in with: the email or the username, one of the
/// two and not both.
pub fn login(body: &LoginRequest) -> (r: Result<Credential, AppError>)
    ensures
        match (body.email, body.username) {
            (Some(email), None) => r matches Ok(Credential::Email(e)) && e@ == email@,
            (None, Some(username)) => r matches Ok(Credential::Username(u)) && u@ == username@,
            (Some(_), Some(_)) => r matches Err(error) && error == AppError::BadReq(
                "Either email or username is allowed",
            ),
            (None, None) => r matches Err(error) && error == AppError::BadReq(
                "No email or username found",
            ),
        },
{
    match (&body.email, &body.username) {
        (Some(email), None) => Ok(Credential::Email(email.clone())),
        (None, Some(username)) => Ok(Credential::Username(username.clone())),
        (Some(_), Some(_)) => Err(AppError::BadReq("Either email or username is allowed")),
        (None, None) => Err(AppError::BadReq("No email or username found")),
    }
}

/// The identifiers that a list of texts spells, in order; none where a text
/// spells no identifier.
pub open spec fn spelled(devices: Seq<String>) -> Option<Seq<u128>>
    decreases devices.len(),
{
    if devices.len() == 0 {
        Some(Seq::empty())
    } else {
        match (spelled(devices.drop_last()), uuid_of(devices.last()@)) {
            (Some(ids), Some(id)) => Some(ids.push(id)),
            _ => None,
        }
    }
}

/// The identifiers of a list but for one.
pub open spec fn others(ids: Seq<u128>, current: u128) -> Seq<u128> {
    ids.filter(|id: u128| id != current)
}

/// The sessions that are left when the named ones end; the current one
/// always is.
pub open spec fn left(sessions: Seq<u128>, named: Seq<u128>, current: u128) -> Seq<u128> {
    sessions.filter(|id: u128| id == current || !named.contains(id))
}

/// The current session as often as a list holds it.
pub open spec fn only(sessions: Seq<u128>, current: u128) -> Seq<u128> {
    sessions.filter(|id: u128| id == current)
}

/// The sessions that signing out of some devices ends, and the ones that it
/// leaves.
#[derive(Clone, Debug, PartialEq)]
pub struct SessionSplit {
    /// The sessions to end, in the order in which they were named. The
    /// session that asks is never among them.
    pub ended: Vec<u128>,
    /// The sessions of the user that are left.
    pub kept: Vec<u128>,
}

/// What signing out of the named devices comes to: a wrong password is a
/// `PasswordMismatch`, a name that spells no session a `BadReq`; otherwise
/// every named session but the current one ends.
pub open spec fn devices_outcome(
    stored: Option<String>,
    given: Seq<char>,
    devices: Seq<String>,
    current: u128,
    sessions: Seq<u128>,
    r: Result<SessionSplit, AppError>,
) -> bool {
    if !password_matches(stored, given) {
        r matches Err(error) && error == AppError::PasswordMismatch
    } else {
        match spelled(devices) {
            None => r matches Err(error) && error == AppError::BadReq("Invalid Session found"),
            Some(named) => r matches Ok(split) && split.ended@ == others(named, current)
                && split.kept@ == left(sessions, named, current),
        }
    }
}

/// Reads the identifiers that a list of texts spells.
fn named_sessions(devices: &Vec<String>) -> (r: Option<Vec<u128>>)
    ensures
        match spelled(devices@) {
            Some(ids) => r matches Some(found) && found@ == ids,
            None => r is None,
        },
{
    let mut ids: Vec<u128> = Vec::new();
    let mut i: usize = 0;
    while i < devices.len()
        invariant
            i <= devices@.len(),
            spelled(devices@.take(i as int)) == Some(ids@),
        decreases devices@.len() - i,
    {
        proof {
            assert(devices@.take(i + 1).drop_last() =~= devices@.take(i as int));
        }
        match parse_id(devices[i].as_str()) {
            Some(id) => {
                ids.push(id);
            },
            None => {
                proof {
                    lemma_unspelled(devices@, i + 1);
                }
                return None;
            },
        }
        i += 1;
    }
    proof {
        assert(devices@.take(devices@.len() as int) =~= devices@);
    }
    Some(ids)
}

/// A list that starts with texts that spell no identifiers spells none.
proof fn lemma_unspelled(devices: Seq<String>, upto: int)
    requires
        0 <= upto <= devices.len(),
        spelled(devices.take(upto)) is None,
    ensures
        spelled(devices) is None,
    decreases devices.len(),
{
    if upto == devices.len() {
        assert(devices.take(upto) =~= devices);
    } else {
        assert(devices.drop_last().take(upto) =~= devices.take(upto));
        lemma_unspelled(devices.drop_last(), upto);
    }
}

fn without(ids: &Vec<u128>, current: u128) -> (r: Vec<u128>)
    ensures
        r@ == others(ids@, current),
{
    let mut out: Vec<u128> = Vec::new();
    let mut i: usize = 0;
    proof {
        assert(others(ids@.take(0), current) =~= Seq::<u128>::empty());
    }
    while i < ids.len()
        invariant
            i <= ids@.len(),
            out@ == others(ids@.take(i as int), current),
        decreases ids@.len() - i,
    {
        proof {
            assert(ids@.take(i + 1).drop_last() =~= ids@.take(i as int));
            reveal(Seq::filter);
        }
        if ids[i] != current {
            out.push(ids[i]);
        }
        i += 1;
    }
    proof {
        assert(ids@.take(ids@.len() as int) =~= ids@);
    }
    out
}

fn contains(ids: &Vec<u128>, id: u128) -> (r: bool)
    ensures
        r == ids@.contains(id),
{
    let mut i: usize = 0;
    while i < ids.len()
        invariant
            i <= ids@.len(),
            forall|j: int| 0 <= j < i ==> ids@[j] != id,
        decreases ids@.len() - i,
    {
        if ids[i] == id {
            return true;
        }
        i += 1;
    }
    false
}

fn left_after(sessions: &Vec<u128>, named: &Vec<u128>, current: u128) -> (r: Vec<u128>)
    ensures
        r@ == left(sessions@, named@, current),
{
    let mut out: Vec<u128> = Vec::new();
    let mut i: usize = 0;
    proof {
        assert(left(sessions@.take(0), named@, current) =~= Seq::<u128>::empty());
    }
    while i < sessions.len()
        invariant
            i <= sessions@.len(),
            out@ == left(sessions@.take(i as int), named@, current),
        decreases sessions@.len() - i,
    {
        proof {
            assert(sessions@.take(i + 1).drop_last() =~= sessions@.take(i as int));
            reveal(Seq::filter);
        }
        let id = sessions[i];
        if id == current || !contains(named, id) {
            out.push(id);
        }
        i += 1;
    }
    proof {
        assert(sessions@.take(sessions@.len() as int) =~= sessions@);
    }
    out
}

/// Signs a user out of the devices that a request names. `stored` is the
/// password of the user, `current` the session that asks, `sessions` the
/// sessions that the user has.
pub fn logout_devices(
    stored: &Option<String>,
    current: u128,
    sessions: &Vec<u128>,
    body: &LogoutDevicesRequest,
) -> (r: Result<SessionSplit, AppError>)
    ensures
        devices_outcome(*stored, body.password@, body.sessions@, current, sessions@, r),
{
    match check_password(stored, body.password.as_str()) {
        Ok(()) => {},
        Err(error) => {
            return Err(error);
        },
    }
    let named = match named_sessions(&body.sessions) {
        Some(named) => named,
        None => {
            return Err(AppError::BadReq("Invalid Session found"));
        },
    };
    let kept = left_after(sessions, &named, current);
    Ok(SessionSplit { ended: without(&named, current), kept })
}

/// Signs a user out everywhere but here: with the right password, the
/// session that asks is the only one left.
pub fn logout_all(
    stored: &Option<String>,
    current: u128,
    sessions: &Vec<u128>,
    body: &LogoutAllRequest,
) -> (r: Result<Vec<u128>, AppError>)
    ensures
        if password_matches(*stored, body.password@) {
            r matches Ok(kept) && kept@ == only(sessions@, current)
        } else {
            r matches Err(error) && error == AppError::PasswordMismatch
        },
{
    match check_password(stored, body.password.as_str()) {
        Ok(()) => {},
        Err(error) => {
            return Err(error);
        },
    }
    let mut out: Vec<u128> = Vec::new();
    let mut i: usize = 0;
    proof {
        assert(only(sessions@.take(0), current) =~= Seq::<u128>::empty());
    }
    while i < sessions.len()
        invariant
            i <= sessions@.len(),
            out@ == only(sessions@.take(i as int), current),
        decreases sessions@.len() - i,
    {
        proof {
            assert(sessions@.take(i + 1).drop_last() =~= sessions@.take(i as int));
            reveal(Seq::filter);
        }
        if sessions[i] == current {
            out.push(sessions[i]);
        }
        i += 1;
    }
    proof {
        assert(sessions@.take(sessions@.len() as int) =~= sessions@);
    }
    Ok(out)
}

} // verus!
