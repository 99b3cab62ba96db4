//! Checks on what a user sends, and the errors they give.

pub mod image;
pub mod text;
pub mod unique;

use crate::strings::{decimal, digits};
use vstd::prelude::*;
use vstd::string::StringExecFns;

verus! {

/// Why a value that a user sent was turned down.
#[derive(PartialEq, Debug)]
pub enum ValidationError {
    NameTooShort,
    NameTooLong,
    InvalidNameFormat(String),
    BioTooLong,
    CountryNotFound,
    InvalidGender,
    InvalidMonth,
    InvalidUtcOffset,
    /// The text of the component that was out of range.
    DateParseError(String),
    InvalidDate(String),
    PasswordTooShort,
    PasswordTooLong,
    InvalidPasswordFormat,
    InvalidUsername(String),
    InvalidEmailFormat,
    ImageTooShort { needed: usize, got: usize },
    InvalidImageFormat { format: String, reason: String },
    UnknownImageFormat,
    InvalidData(String),
}

/// A validation error with its texts as sequences of characters.
pub enum ValidationErrorView {
    NameTooShort,
    NameTooLong,
    InvalidNameFormat(Seq<char>),
    BioTooLong,
    CountryNotFound,
    InvalidGender,
    InvalidMonth,
    InvalidUtcOffset,
    DateParseError(Seq<char>),
    InvalidDate(Seq<char>),
    PasswordTooShort,
    PasswordTooLong,
    InvalidPasswordFormat,
    InvalidUsername(Seq<char>),
    InvalidEmailFormat,
    ImageTooShort { needed: usize, got: usize },
    InvalidImageFormat { format: Seq<char>, reason: Seq<char> },
    UnknownImageFormat,
    InvalidData(Seq<char>),
}

impl View for ValidationError {
    type V = ValidationErrorView;

    open spec fn view(&self) -> ValidationErrorView {
        match self {
            ValidationError::NameTooShort => ValidationErrorView::NameTooShort,
            ValidationError::NameTooLong => ValidationErrorView::NameTooLong,
            ValidationError::InvalidNameFormat(m) => ValidationErrorView::InvalidNameFormat(m@),
            ValidationError::BioTooLong => ValidationErrorView::BioTooLong,
            ValidationError::CountryNotFound => ValidationErrorView::CountryNotFound,
            ValidationError::InvalidGender => ValidationErrorView::InvalidGender,
            ValidationError::InvalidMonth => ValidationErrorView::InvalidMonth,
            ValidationError::InvalidUtcOffset => ValidationErrorView::InvalidUtcOffset,
            ValidationError::DateParseError(m) => ValidationErrorView::DateParseError(m@),
            ValidationError::InvalidDate(m) => ValidationErrorView::InvalidDate(m@),
            ValidationError::PasswordTooShort => ValidationErrorView::PasswordTooShort,
            ValidationError::PasswordTooLong => ValidationErrorView::PasswordTooLong,
            ValidationError::InvalidPasswordFormat => ValidationErrorView::InvalidPasswordFormat,
            ValidationError::InvalidUsername(m) => ValidationErrorView::InvalidUsername(m@),
            ValidationError::InvalidEmailFormat => ValidationErrorView::InvalidEmailFormat,
            ValidationError::ImageTooShort { needed, got } => ValidationErrorView::ImageTooShort {
                needed: *needed,
                got: *got,
            },
            ValidationError::InvalidImageFormat { format, reason } => ValidationErrorView::InvalidImageFormat {
                format: format@,
                reason: reason@,
            },
            ValidationError::UnknownImageFormat => ValidationErrorView::UnknownImageFormat,
            ValidationError::InvalidData(m) => ValidationErrorView::InvalidData(m@),
        }
    }
}

/// A result of a check with its error viewed.
pub open spec fn outcome<T>(r: Result<T, ValidationError>) -> Result<T, ValidationErrorView> {
    match r {
        Ok(value) => Ok(value),
        Err(error) => Err(error@),
    }
}

/// A result of a check that gives a text, with text and error viewed.
pub open spec fn text_outcome(r: Result<String, ValidationError>) -> Result<
    Seq<char>,
    ValidationErrorView,
> {
    match r {
        Ok(text) => Ok(text@),
        Err(error) => Err(error@),
    }
}

/// What a user is told of a validation error.
pub open spec fn message_of(error: ValidationErrorView) -> Seq<char> {
    match error {
        ValidationErrorView::NameTooShort => "Name should have atleast 2 characters"@,
        ValidationErrorView::NameTooLong => "Name should be lesser than 64 characters"@,
        ValidationErrorView::InvalidNameFormat(reason) => reason,
        ValidationErrorView::BioTooLong => "Bio too long (MAX: 3000)"@,
        ValidationErrorView::CountryNotFound => "Country not found"@,
        ValidationErrorView::InvalidGender => "Invalid Gender"@,
        ValidationErrorView::InvalidMonth => "Invalid month"@,
        ValidationErrorView::InvalidUtcOffset => "Invalid UTC offset"@,
        ValidationErrorView::DateParseError(reason) => "Date Parse Error: "@ + reason,
        ValidationErrorView::InvalidDate(reason) => "Invalid Date: "@ + reason,
        ValidationErrorView::PasswordTooShort => "Password cannot be less than 8 characters"@,
        ValidationErrorView::PasswordTooLong => "Password cannot be more than 128 characters"@,
        ValidationErrorView::InvalidPasswordFormat => "Password must contain a lowercase alphabet, a uppercase alphabet and a digit"@,
        ValidationErrorView::InvalidUsername(reason) => "Invalid Username: "@ + reason,
        ValidationErrorView::InvalidEmailFormat => "Invalid Email Format"@,
        ValidationErrorView::ImageTooShort { needed, got } => "Image data too short: need at least "@
            + digits(needed as nat) + " bytes, got "@ + digits(got as nat),
        ValidationErrorView::InvalidImageFormat { format, reason } => "Invalid "@ + format
            + " image: "@ + reason,
        ValidationErrorView::UnknownImageFormat => "Unknown image format: Only jpg, jpeg, png, webp are allowed"@,
        ValidationErrorView::InvalidData(reason) => "Error: "@ + reason,
    }
}

impl ValidationError {
    /// What a user is told of the error.
    pub fn to_string(&self) -> (r: String)
        ensures
            r@ == message_of(self@),
    {
        match self {
            ValidationError::NameTooShort => "Name should have atleast 2 characters".to_owned(),
            ValidationError::NameTooLong => "Name should be lesser than 64 characters".to_owned(),
            ValidationError::InvalidNameFormat(reason) => reason.clone(),
            ValidationError::BioTooLong => "Bio too long (MAX: 3000)".to_owned(),
            ValidationError::CountryNotFound => "Country not found".to_owned(),
            ValidationError::InvalidGender => "Invalid Gender".to_owned(),
            ValidationError::InvalidMonth => "Invalid month".to_owned(),
            ValidationError::InvalidUtcOffset => "Invalid UTC offset".to_owned(),
            ValidationError::DateParseError(reason) => {
                let mut text = "Date Parse Error: ".to_owned();
                text.append(reason.as_str());
                text
            },
            ValidationError::InvalidDate(reason) => {
                let mut text = "Invalid Date: ".to_owned();
                text.append(reason.as_str());
                text
            },
            ValidationError::PasswordTooShort => "Password cannot be less than 8 characters".to_owned(),
            ValidationError::PasswordTooLong => "Password cannot be more than 128 characters".to_owned(),
            ValidationError::InvalidPasswordFormat => "Password must contain a lowercase alphabet, a uppercase alphabet and a digit".to_owned(),
            ValidationError::InvalidUsername(reason) => {
                let mut text = "Invalid Username: ".to_owned();
                text.append(reason.as_str());
                text
            },
            ValidationError::InvalidEmailFormat => "Invalid Email Format".to_owned(),
            ValidationError::ImageTooShort { needed, got } => {
                let mut text = "Image data too short: need at least ".to_owned();
                text.append(decimal(*needed).as_str());
                text.append(" bytes, got ");
                text.append(decimal(*got).as_str());
                text
            },
            ValidationError::InvalidImageFormat { format, reason } => {
                let mut text = "Invalid ".to_owned();
                text.append(format.as_str());
                text.append(" image: ");
                text.append(reason.as_str());
                text
            },
            ValidationError::UnknownImageFormat => "Unknown image format: Only jpg, jpeg, png, webp are allowed".to_owned(),
            ValidationError::InvalidData(reason) => {
                let mut text = "Error: ".to_owned();
                text.append(reason.as_str());
                text
            },
        }
    }
}

} // verus!
