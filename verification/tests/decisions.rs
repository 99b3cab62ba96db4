use identity::applications::finalize::accept;
use identity::applications::pre_recovery::{code_found, ResetAction};
use identity::applications::record::{
    attempt_in, recovery_in, registrant_in, socket_in, ClientSocket, DropType, OAuthProvider,
    OidcInfo, Record, RegistrantEntry, RegistrantStatus,
};
use identity::applications::registration::{
    check_otp, email_availability, reissue, with_password,
};
use identity::applications::update_email::confirm_email_update;
use identity::error::AppError;

fn entry(status: RegistrantStatus) -> RegistrantEntry {
    RegistrantEntry {
        socket_addr: ClientSocket::new("[::1]:9000".to_string()),
        display_name: Some("Ada".to_string()),
        password: None,
        icon: None,
        phone: None,
        oauth_provider: OAuthProvider::NoProvider,
        status,
    }
}

fn created(otp: &str) -> RegistrantEntry {
    entry(RegistrantStatus::Created(otp.to_string()))
}

fn updating(old_email: &str, otp: &str) -> RegistrantEntry {
    let mut e = entry(RegistrantStatus::UpdatingEmail {
        old_email: old_email.to_string(),
        otp: otp.to_string(),
    });
    e.display_name = None;
    e
}

#[test]
fn an_email_is_available_when_nobody_has_it() {
    assert_eq!(email_availability(false, false), Ok(()));
    assert_eq!(email_availability(true, false), Err(AppError::EmailTaken));
    assert_eq!(email_availability(false, true), Err(AppError::EmailTaken));
    assert_eq!(email_availability(true, true), Err(AppError::EmailTaken));
}

#[test]
fn an_otp_is_checked_against_a_created_entry() {
    assert_eq!(check_otp(&None, "1"), Err(AppError::UserNotFound));
    assert_eq!(check_otp(&Some(created("123456")), "123456"), Ok(()));
    assert_eq!(check_otp(&Some(created("123456")), "12345"), Err(AppError::InvalidOTP));
    assert_eq!(check_otp(&Some(created("")), ""), Ok(()));
    let order = Err(AppError::BadReq("Please verify the email"));
    assert_eq!(check_otp(&Some(entry(RegistrantStatus::EmailVerified)), "1"), order);
    assert_eq!(check_otp(&Some(entry(RegistrantStatus::PasswordSet)), "1"), order);
    assert_eq!(check_otp(&Some(entry(RegistrantStatus::OpenIDConnected)), "1"), order);
    assert_eq!(check_otp(&Some(updating("old@x", "1")), "1"), order);
}

#[test]
fn a_new_otp_resets_the_status() {
    assert_eq!(reissue(None, "1".to_string()), Err(AppError::UserNotFound));
    assert_eq!(reissue(Some(created("1")), "2".to_string()), Ok(created("2")));
    let mut set = entry(RegistrantStatus::PasswordSet);
    set.password = Some("Passw0rd!".to_string());
    let mut renewed = created("2");
    renewed.password = Some("Passw0rd!".to_string());
    assert_eq!(reissue(Some(set), "2".to_string()), Ok(renewed));
}

#[test]
fn a_password_leaves_the_status() {
    assert_eq!(with_password(None, "p".to_string()), Err(AppError::UserNotFound));
    let mut expected = created("1");
    expected.password = Some("p".to_string());
    assert_eq!(with_password(Some(created("1")), "p".to_string()), Ok(expected));
}

#[test]
fn an_email_change_is_confirmed_by_otp_and_old_email() {
    let found = Some(updating("old@x", "999999"));
    assert_eq!(confirm_email_update(&found, "old@x", "999999"), Ok(()));
    assert_eq!(confirm_email_update(&found, "old@x", "111111"), Err(AppError::InvalidOTP));
    assert_eq!(
        confirm_email_update(&found, "wrong@x", "999999"),
        Err(AppError::BadReq("New email didn't match"))
    );
    assert_eq!(confirm_email_update(&found, "wrong@x", "111111"), Err(AppError::InvalidOTP));
    assert_eq!(confirm_email_update(&None, "old@x", "999999"), Err(AppError::UserNotFound));
    assert_eq!(
        confirm_email_update(&Some(created("999999")), "old@x", "999999"),
        Err(AppError::BadReq("Please verify the email"))
    );
}

#[test]
fn a_registration_goes_on_with_a_free_username_and_a_name() {
    assert_eq!(accept(Some(created("1")), false), Ok(created("1")));
    assert_eq!(accept(Some(created("1")), true), Err(AppError::UsernameTaken));
    assert_eq!(accept(None, true), Err(AppError::UserNotFound));
    assert_eq!(accept(None, false), Err(AppError::UserNotFound));
    assert_eq!(accept(Some(updating("old@x", "1")), false), Err(AppError::ServerError));
    assert_eq!(accept(Some(updating("old@x", "1")), true), Err(AppError::UsernameTaken));
}

#[test]
fn a_code_leads_to_its_email() {
    assert_eq!(
        code_found(Some("e@x".to_string())),
        ResetAction::UpdatePassword { email: "e@x".to_string() }
    );
    assert_eq!(
        code_found(None),
        ResetAction::Reply(Err(AppError::BadReq("Password Reset code not found")))
    );
}

#[test]
fn a_store_hands_out_records_of_its_kind() {
    let info = OidcInfo {
        socket_addr: ClientSocket::new("[::1]:9000".to_string()),
        code_verifier: "verifier".to_string(),
        nonce: "nonce".to_string(),
        provider: OAuthProvider::Google,
    };
    let records = || {
        vec![
            Record::Socket(DropType::Registrant("e@x".to_string())),
            Record::Registrant(created("1")),
            Record::Oidc(info.clone()),
            Record::Recovery("e@x".to_string()),
        ]
    };
    let registrants: Vec<_> = records().into_iter().map(|r| registrant_in(Some(r))).collect();
    assert_eq!(registrants, vec![None, Some(created("1")), None, None]);
    let attempts: Vec<_> = records().into_iter().map(|r| attempt_in(Some(r))).collect();
    assert_eq!(attempts, vec![None, None, Some(info.clone()), None]);
    let recoveries: Vec<_> = records().into_iter().map(|r| recovery_in(Some(r))).collect();
    assert_eq!(recoveries, vec![None, None, None, Some("e@x".to_string())]);
    let sockets: Vec<_> = records().into_iter().map(|r| socket_in(Some(r))).collect();
    assert_eq!(
        sockets,
        vec![Some(DropType::Registrant("e@x".to_string())), None, None, None]
    );
    assert_eq!(socket_in(None), None);
    assert_eq!(registrant_in(None), None);
    assert_eq!(attempt_in(None), None);
    assert_eq!(recovery_in(None), None);
}
