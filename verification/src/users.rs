//! The record of an account as the persistent store keeps it.

use crate::applications::record::OAuthProvider;
use time::OffsetDateTime;
use uuid::Uuid;
use vstd::prelude::*;

verus! {

#[verifier::external_type_specification]
#[verifier::external_body]
pub struct ExOffsetDateTime(OffsetDateTime);

/// An account.
#[derive(Debug, PartialEq)]
pub struct User {
    /// The 128 bits of the account's UUID.
    pub id: u128,
    pub display_name: String,
    pub email: String,
    pub birth_date: Option<OffsetDateTime>,
    pub password: Option<String>,
    pub username: String,
    pub banner: Option<String>,
    pub icon: Option<String>,
    pub bio: Option<String>,
    pub legal_name: Option<String>,
    pub gender: Option<String>,
    pub phone: Option<String>,
    pub country: Option<String>,
    pub oauth_provider: OAuthProvider,
    pub created: OffsetDateTime,
}

/// The hyphenated text of the UUID that 128 bits make.
pub uninterp spec fn uuid_text(id: u128) -> Seq<char>;

/// The bits of the UUID that a text spells, if it spells one.
pub uninterp spec fn uuid_of(text: Seq<char>) -> Option<u128>;

/// `Uuid::new_v4`: the bits of a random UUID.
#[verifier::external_body]
pub(crate) fn new_id() -> u128 {
    Uuid::new_v4().as_u128()
}

/// `Display` of `Uuid`: the hyphenated text of a UUID.
#[verifier::external_body]
pub(crate) fn id_text(id: u128) -> (r: String)
    ensures
        r@ == uuid_text(id),
{
    Uuid::from_u128(id).to_string()
}

/// `Uuid::try_from` on a text: the bits of the UUID that it spells.
#[verifier::external_body]
pub(crate) fn parse_id(text: &str) -> (r: Option<u128>)
    ensures
        r == uuid_of(text@),
{
    match Uuid::try_from(text) {
        Ok(id) => Some(id.as_u128()),
        Err(_) => None,
    }
}

/// `OffsetDateTime::now_utc`: the current date and time.
#[verifier::external_body]
pub(crate) fn now() -> OffsetDateTime {
    OffsetDateTime::now_utc()
}

} // verus!
