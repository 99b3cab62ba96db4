use identity::error::{AppError, ErrorResponse, JsonMsg};
use identity::strings::{decimal, pair, split_text};
use identity::validation::ValidationError;

fn told(status: u16, message: &str) -> ErrorResponse {
    ErrorResponse { status, headers: Vec::new(), message: Some(message.to_string()) }
}

#[test]
fn every_error_has_its_status_and_message() {
    assert_eq!(AppError::BadReq("bad").into_response(), told(400, "bad"));
    assert_eq!(AppError::Unauthorized("no").into_response(), told(401, "no"));
    assert_eq!(
        AppError::NotFound.into_response(),
        ErrorResponse { status: 404, headers: Vec::new(), message: None }
    );
    assert_eq!(
        AppError::Validation(ValidationError::BioTooLong).into_response(),
        told(400, "Bio too long (MAX: 3000)")
    );
    assert_eq!(AppError::InvalidOTP.into_response(), told(400, "Invalid OTP"));
    assert_eq!(AppError::InvalidOAuthProvider.into_response(), told(400, "Invalid OAuth Provider"));
    assert_eq!(AppError::UserNotFound.into_response(), told(404, "User not found"));
    assert_eq!(AppError::UsernameTaken.into_response(), told(409, "Username already taken"));
    assert_eq!(AppError::EmailTaken.into_response(), told(409, "Email already taken"));
    assert_eq!(AppError::PasswordMismatch.into_response(), told(401, "Password didn't match"));
    assert_eq!(AppError::SessionExpired.into_response(), told(401, "Your session has expired"));
    assert_eq!(AppError::ServerError.into_response(), told(500, "Something went wrong"));
}

#[test]
fn an_invalid_session_sets_its_headers() {
    let headers = vec![pair("set-cookie", "SSID=; Max-Age=0")];
    assert_eq!(
        AppError::InvalidSession(headers.clone()).into_response(),
        ErrorResponse { status: 401, headers, message: Some("Invalid Session".to_string()) }
    );
}

#[test]
fn validation_errors_become_app_errors() {
    assert_eq!(
        AppError::from(ValidationError::InvalidGender),
        AppError::Validation(ValidationError::InvalidGender)
    );
}

#[test]
fn validation_messages() {
    let cases = vec![
        (ValidationError::NameTooShort, "Name should have atleast 2 characters"),
        (ValidationError::NameTooLong, "Name should be lesser than 64 characters"),
        (ValidationError::InvalidNameFormat("only letters".to_string()), "only letters"),
        (ValidationError::BioTooLong, "Bio too long (MAX: 3000)"),
        (ValidationError::CountryNotFound, "Country not found"),
        (ValidationError::InvalidGender, "Invalid Gender"),
        (ValidationError::InvalidMonth, "Invalid month"),
        (ValidationError::InvalidUtcOffset, "Invalid UTC offset"),
        (
            ValidationError::DateParseError("day was not in range".to_string()),
            "Date Parse Error: day was not in range",
        ),
        (ValidationError::InvalidDate("too late".to_string()), "Invalid Date: too late"),
        (ValidationError::PasswordTooShort, "Password cannot be less than 8 characters"),
        (ValidationError::PasswordTooLong, "Password cannot be more than 128 characters"),
        (
            ValidationError::InvalidPasswordFormat,
            "Password must contain a lowercase alphabet, a uppercase alphabet and a digit",
        ),
        (ValidationError::InvalidUsername("too short".to_string()), "Invalid Username: too short"),
        (ValidationError::InvalidEmailFormat, "Invalid Email Format"),
        (
            ValidationError::ImageTooShort { needed: 29, got: 7 },
            "Image data too short: need at least 29 bytes, got 7",
        ),
        (
            ValidationError::InvalidImageFormat {
                format: "PNG".to_string(),
                reason: "missing IHDR chunk".to_string(),
            },
            "Invalid PNG image: missing IHDR chunk",
        ),
        (
            ValidationError::UnknownImageFormat,
            "Unknown image format: Only jpg, jpeg, png, webp are allowed",
        ),
        (ValidationError::InvalidData("no".to_string()), "Error: no"),
    ];
    for (error, message) in cases {
        assert_eq!(error.to_string(), message);
    }
}

#[test]
fn json_message() {
    assert_eq!(JsonMsg::new("hello").message, "hello");
}

#[test]
fn numbers_in_decimal() {
    assert_eq!(decimal(0), "0");
    assert_eq!(decimal(9), "9");
    assert_eq!(decimal(10), "10");
    assert_eq!(decimal(1234567890), "1234567890");
    assert_eq!(decimal(usize::MAX), usize::MAX.to_string());
}

#[test]
fn texts_are_cut_at_separators() {
    assert_eq!(split_text("a.b.c", '.'), vec!["a", "b", "c"]);
    assert_eq!(split_text("", '.'), vec![""]);
    assert_eq!(split_text(".", '.'), vec!["", ""]);
    assert_eq!(split_text("a..b.", '.'), vec!["a", "", "b", ""]);
    assert_eq!(split_text("abc", '.'), vec!["abc"]);
}
