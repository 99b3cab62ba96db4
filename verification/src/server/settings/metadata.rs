//! Changing what an account says of its owner.

use crate::error::AppError;
use crate::server::turned_down;
use crate::strings::trimmed;
use crate::users::User;
use crate::validation::text::{
    days_in_month,
    is_birth_date_valid, is_country_valid, is_gender_valid, is_legal_name_valid,
    is_utc_offset_valid, legal_name_outcome, long_name_of, offset_in_range, only_ascii_letters,
};
use crate::validation::{ValidationError, ValidationErrorView};
use time::OffsetDateTime;
use vstd::prelude::*;

verus! {

#[derive(Clone, Debug, PartialEq)]
pub struct UpdateLegalNameRequest {
    pub legal_name: String,
}

#[derive(Clone, Debug, PartialEq)]
pub struct UpdateBirthDateRequest {
    pub year: u32,
    pub month: u8,
    pub day: u8,
    pub offset_hours: i8,
    pub offset_minutes: i8,
    pub offset_seconds: i8,
}

#[derive(Clone, Debug, PartialEq)]
pub struct UpdateGenderRequest {
    pub gender: String,
}

#[derive(Clone, Debug, PartialEq)]
pub struct UpdateCountryRequest {
    pub country: String,
}

impl UpdateLegalNameRequest {
    /// Checks the legal name. The name is stored as it was sent.
    pub fn validate(&self) -> (r: Result<(), AppError>)
        ensures
            match legal_name_outcome(self.legal_name@) {
                Ok(_) => r is Ok,
                Err(reason) => turned_down(r, reason),
            },
    {
        match is_legal_name_valid(self.legal_name.as_str()) {
            Ok(_) => Ok(()),
            Err(error) => Err(AppError::Validation(error)),
        }
    }
}

impl UpdateBirthDateRequest {
    /// Checks the offset, then the date, and gives the start of the day of
    /// birth in that offset.
    pub fn validate(&self) -> (r: Result<OffsetDateTime, AppError>)
        ensures
            !offset_in_range(self.offset_hours, self.offset_minutes, self.offset_seconds)
                ==> turned_down(r, ValidationErrorView::InvalidUtcOffset),
            offset_in_range(self.offset_hours, self.offset_minutes, self.offset_seconds) && !(1
                <= self.month <= 12) ==> turned_down(r, ValidationErrorView::InvalidMonth),
            offset_in_range(self.offset_hours, self.offset_minutes, self.offset_seconds) && 1
                <= self.month <= 12 && self.year <= 9999 && !(1 <= self.day <= days_in_month(
                self.year as int,
                self.month as int,
            )) ==> r matches Err(AppError::Validation(ValidationError::DateParseError(_))),
            r matches Err(error) ==> error is Validation,
    {
        let offset = match is_utc_offset_valid(
            self.offset_hours,
            self.offset_minutes,
            self.offset_seconds,
        ) {
            Ok(offset) => offset,
            Err(error) => {
                return Err(AppError::Validation(error));
            },
        };
        match is_birth_date_valid(self.year, self.month, self.day, offset) {
            Ok(birth_date) => Ok(birth_date),
            Err(error) => Err(AppError::Validation(error)),
        }
    }
}

impl UpdateGenderRequest {
    /// Checks the gender.
    pub fn validate(&self) -> (r: Result<(), AppError>)
        ensures
            if only_ascii_letters(self.gender@) {
                r is Ok
            } else {
                turned_down(r, ValidationErrorView::InvalidGender)
            },
    {
        match is_gender_valid(self.gender.as_str()) {
            Ok(()) => Ok(()),
            Err(error) => Err(AppError::Validation(error)),
        }
    }
}

impl UpdateCountryRequest {
    /// Checks the country and gives its official name, which is what is
    /// stored.
    pub fn validate(&self) -> (r: Result<String, AppError>)
        ensures
            match long_name_of(trimmed(self.country@)) {
                Some(name) => r matches Ok(found) && found@ == name,
                None => turned_down(r, ValidationErrorView::CountryNotFound),
            },
    {
        match is_country_valid(self.country.as_str()) {
            Ok(name) => Ok(name),
            Err(error) => Err(AppError::Validation(error)),
        }
    }
}

/// Brings the account in memory up to date after the persistent store took
/// a legal name: the name is kept as it was sent.
pub fn update_legal_name(user: &mut User, body: &UpdateLegalNameRequest)
    ensures
        *final(user) == (User { legal_name: Some(body.legal_name), ..*old(user) }),
{
    user.legal_name = Some(body.legal_name.clone());
}

/// Brings the account in memory up to date after the persistent store took
/// a date of birth.
pub fn update_birth_date(user: &mut User, birth_date: OffsetDateTime)
    ensures
        *final(user) == (User { birth_date: Some(birth_date), ..*old(user) }),
{
    user.birth_date = Some(birth_date);
}

/// Brings the account in memory up to date after the persistent store took
/// a gender.
pub fn update_gender(user: &mut User, body: &UpdateGenderRequest)
    ensures
        *final(user) == (User { gender: Some(body.gender), ..*old(user) }),
{
    user.gender = Some(body.gender.clone());
}

/// Brings the account in memory up to date after the persistent store took
/// a country, by its official name.
pub fn update_country(user: &mut User, country: String)
    ensures
        *final(user) == (User { country: Some(country), ..*old(user) }),
{
    user.country = Some(country);
}

} // verus!
