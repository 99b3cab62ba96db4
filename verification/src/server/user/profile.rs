//! Showing and changing the profile of an account.

use crate::error::AppError;
use crate::server::turned_down;
use crate::strings::{same_text, trim, trimmed, utf8_len};
use crate::users::User;
use crate::validation::text::{
    BIO_MAX_BYTES, display_name_outcome, is_bio_valid, is_display_name_valid,
};
use crate::validation::{ValidationError, ValidationErrorView};
use vstd::prelude::*;

verus! {

/// The fields of a profile form that the service reads.
#[derive(Clone, Copy, PartialEq, Eq, Debug, Structural)]
pub enum ProfileField {
    Banner,
    Icon,
    DisplayName,
    Bio,
    /// Any other field: it is passed over.
    Unknown,
}

/// What a profile form changes.
#[derive(Clone, Debug, PartialEq)]
pub struct ProfileUpdate {
    pub banner: Option<String>,
    pub icon: Option<String>,
    pub display_name: Option<String>,
    pub bio: Option<String>,
}

/// The field that a name in the form stands for.
pub open spec fn field_named(name: Seq<char>) -> ProfileField {
    if name == "banner"@ {
        ProfileField::Banner
    } else if name == "icon"@ {
        ProfileField::Icon
    } else if name == "display_name"@ {
        ProfileField::DisplayName
    } else if name == "bio"@ {
        ProfileField::Bio
    } else {
        ProfileField::Unknown
    }
}

/// Tells which field of the profile a part of the form is.
pub fn profile_field(name: &str) -> (r: ProfileField)
    ensures
        r == field_named(name@),
{
    if same_text(name, "banner") {
        ProfileField::Banner
    } else if same_text(name, "icon") {
        ProfileField::Icon
    } else if same_text(name, "display_name") {
        ProfileField::DisplayName
    } else if same_text(name, "bio") {
        ProfileField::Bio
    } else {
        ProfileField::Unknown
    }
}

/// The file name of an image in the form; a part without one is turned
/// down.
pub fn file_name(given: Option<String>) -> (r: Result<String, AppError>)
    ensures
        match given {
            Some(name) => r == Ok::<String, AppError>(name),
            None => turned_down(r, ValidationErrorView::InvalidData("No filename provided"@)),
        },
{
    match given {
        Some(name) => Ok(name),
        None => Err(
            AppError::Validation(ValidationError::InvalidData("No filename provided".to_owned())),
        ),
    }
}

/// Checks a display name from the form and gives it without the white
/// space at its ends, which is what is stored.
pub fn display_name(text: &str) -> (r: Result<String, AppError>)
    ensures
        match display_name_outcome(text@) {
            Ok(()) => r matches Ok(name) && name@ == trimmed(text@),
            Err(reason) => turned_down(r, reason),
        },
{
    match is_display_name_valid(text) {
        Ok(()) => Ok(trim(text).to_owned()),
        Err(error) => Err(AppError::Validation(error)),
    }
}

/// Checks a bio from the form.
pub fn bio(text: String) -> (r: Result<String, AppError>)
    ensures
        if utf8_len(text@) > BIO_MAX_BYTES {
            turned_down(r, ValidationErrorView::BioTooLong)
        } else {
            r == Ok::<String, AppError>(text)
        },
{
    match is_bio_valid(text.as_str()) {
        Ok(()) => Ok(text),
        Err(error) => Err(AppError::Validation(error)),
    }
}

/// What everyone may see of an account.
#[derive(Clone, Debug, PartialEq)]
pub struct Profile {
    pub username: String,
    pub display_name: String,
    pub bio: Option<String>,
}

/// What everyone may see of an account.
pub open spec fn shown(user: User) -> Profile {
    Profile { username: user.username, display_name: user.display_name, bio: user.bio }
}

/// What everyone may see of an account.
pub fn profile_of(user: &User) -> (r: Profile)
    ensures
        r == shown(*user),
{
    Profile {
        username: user.username.clone(),
        display_name: user.display_name.clone(),
        bio: match &user.bio {
            Some(bio) => Some(bio.clone()),
            None => None,
        },
    }
}

/// Answers a request for the profile of a username from memory where it is
/// the asking user's own; any other profile has to be looked up.
pub fn get_user_profile(user: &User, username: &str) -> (r: Option<Profile>)
    ensures
        r == if user.username@ == username@ {
            Some(shown(*user))
        } else {
            None
        },
{
    if same_text(user.username.as_str(), username) {
        Some(profile_of(user))
    } else {
        None
    }
}

/// Brings the account in memory up to date after the persistent store took
/// a profile update: icon, display name and bio change where the form gave
/// them; nothing else does.
pub fn update_profile(user: &mut User, update: ProfileUpdate)
    ensures
        *final(user) == (User {
            icon: if update.icon is Some {
                update.icon
            } else {
                old(user).icon
            },
            display_name: if update.display_name is Some {
                update.display_name->0
            } else {
                old(user).display_name
            },
            bio: if update.bio is Some {
                update.bio
            } else {
                old(user).bio
            },
            ..*old(user)
        }),
{
    let ProfileUpdate { banner: _, icon, display_name, bio } = update;
    if icon.is_some() {
        user.icon = icon;
    }
    match display_name {
        Some(display_name) => {
            user.display_name = display_name;
        },
        None => {},
    }
    if bio.is_some() {
        user.bio = bio;
    }
}

} // verus!
