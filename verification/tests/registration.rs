use identity::applications::finalize::{icon_file_name, PendingUser, UsernameAction, UsernameEvent};
use identity::applications::pre_recovery::{ResetAction, ResetEvent};
use identity::applications::record::{ClientSocket, DropType, OAuthProvider, RegistrantStatus};
use identity::applications::update_email::{EmailUpdateAction, EmailUpdateEvent};
use identity::applications::Applications;
use identity::db::Db;
use identity::error::AppError;

fn socket(addr: &str) -> ClientSocket {
    ClientSocket::new(addr.to_string())
}

fn started(db: &mut Db, addr: &str, email: &str, otp: &str) {
    let r = db.create_registrant(
        socket(addr),
        "Ada".to_string(),
        email.to_string(),
        otp.to_string(),
        false,
    );
    assert_eq!(r, Ok(()));
}

fn png(width: u32, height: u32) -> Vec<u8> {
    let mut data = vec![0x89, 0x50, 0x4E, 0x47, 0x0D, 0x0A, 0x1A, 0x0A, 0, 0, 0, 13];
    data.extend_from_slice(b"IHDR");
    data.extend_from_slice(&width.to_be_bytes());
    data.extend_from_slice(&height.to_be_bytes());
    data.extend_from_slice(&[8, 6, 0, 0, 0]);
    data
}

#[test]
fn a_new_store_holds_nothing() {
    let db = Db::new();
    assert!(!db.applications.is_email_present("ada@example.com"));
    assert_eq!(db.applications.get_registrant("ada@example.com"), None);
    assert_eq!(db.get_oidc_info("state"), None);
    assert_eq!(db.applications.get_recovery("code"), None);
}

#[test]
fn available_email_starts_a_registration() {
    let mut db = Db::new();
    assert_eq!(db.is_email_available("ada@example.com", false), Ok(()));
    started(&mut db, "127.0.0.1:4000", "ada@example.com", "123456");
    assert!(db.applications.is_email_present("ada@example.com"));
    let entry = db.applications.get_registrant("ada@example.com").unwrap();
    assert_eq!(entry.socket_addr, socket("127.0.0.1:4000"));
    assert_eq!(entry.display_name, Some("Ada".to_string()));
    assert_eq!(entry.password, None);
    assert_eq!(entry.icon, None);
    assert_eq!(entry.phone, None);
    assert_eq!(entry.oauth_provider, OAuthProvider::NoProvider);
    assert_eq!(entry.status, RegistrantStatus::Created("123456".to_string()));
}

#[test]
fn pending_email_is_taken() {
    let mut db = Db::new();
    started(&mut db, "127.0.0.1:4000", "ada@example.com", "123456");
    assert_eq!(db.is_email_available("ada@example.com", false), Err(AppError::EmailTaken));
    let again = db.create_registrant(
        socket("127.0.0.1:4001"),
        "Eve".to_string(),
        "ada@example.com".to_string(),
        "999999".to_string(),
        false,
    );
    assert_eq!(again, Err(AppError::EmailTaken));
    let entry = db.applications.get_registrant("ada@example.com").unwrap();
    assert_eq!(entry.display_name, Some("Ada".to_string()));
    assert_eq!(entry.status, RegistrantStatus::Created("123456".to_string()));
}

#[test]
fn registered_email_is_taken() {
    let mut db = Db::new();
    assert_eq!(db.is_email_available("ada@example.com", true), Err(AppError::EmailTaken));
    let r = db.create_registrant(
        socket("127.0.0.1:4000"),
        "Ada".to_string(),
        "ada@example.com".to_string(),
        "123456".to_string(),
        true,
    );
    assert_eq!(r, Err(AppError::EmailTaken));
    assert!(!db.applications.is_email_present("ada@example.com"));
}

#[test]
fn otp_round_trip() {
    let mut db = Db::new();
    started(&mut db, "127.0.0.1:4000", "ada@example.com", "123456");
    assert_eq!(db.verify_registrant_email("ada@example.com", "000000"), Err(AppError::InvalidOTP));
    assert_eq!(db.verify_registrant_email("ada@example.com", "123456"), Ok(()));
    assert_eq!(db.verify_registrant_email("ada@example.com", "123456"), Ok(()));
    assert!(db.applications.is_email_present("ada@example.com"));
}

#[test]
fn verifying_an_unknown_email_finds_no_user() {
    let mut db = Db::new();
    assert_eq!(db.verify_registrant_email("ada@example.com", "123456"), Err(AppError::UserNotFound));
    assert_eq!(
        db.update_registrant_otp("ada@example.com", "1".to_string()),
        Err(AppError::UserNotFound)
    );
    assert_eq!(
        db.set_registrant_password("ada@example.com", "Passw0rd!".to_string()),
        Err(AppError::UserNotFound)
    );
}

#[test]
fn resend_overwrites_the_otp() {
    let mut db = Db::new();
    started(&mut db, "127.0.0.1:4000", "ada@example.com", "123456");
    assert_eq!(db.update_registrant_otp("ada@example.com", "654321".to_string()), Ok(()));
    assert_eq!(db.verify_registrant_email("ada@example.com", "123456"), Err(AppError::InvalidOTP));
    assert_eq!(db.verify_registrant_email("ada@example.com", "654321"), Ok(()));
}

#[test]
fn resend_resets_any_status() {
    let mut db = Db::new();
    let r = db.create_registrant_oidc(
        socket("127.0.0.1:4000"),
        "Ada".to_string(),
        "ada@example.com".to_string(),
        "https://cdn.example.com/a/photo=s96".to_string(),
        OAuthProvider::Google,
        false,
    );
    assert_eq!(r, Ok(()));
    assert_eq!(
        db.verify_registrant_email("ada@example.com", "1"),
        Err(AppError::BadReq("Please verify the email"))
    );
    assert_eq!(db.update_registrant_otp("ada@example.com", "654321".to_string()), Ok(()));
    assert_eq!(db.verify_registrant_email("ada@example.com", "654321"), Ok(()));
    let entry = db.applications.get_registrant("ada@example.com").unwrap();
    assert_eq!(entry.oauth_provider, OAuthProvider::Google);
    assert_eq!(entry.icon, Some("https://cdn.example.com/a/photo=s96".to_string()));
}

#[test]
fn password_is_stored_in_any_status_and_more_than_once() {
    let mut db = Db::new();
    started(&mut db, "127.0.0.1:4000", "ada@example.com", "123456");
    assert_eq!(db.set_registrant_password("ada@example.com", "First1!aa".to_string()), Ok(()));
    assert_eq!(db.set_registrant_password("ada@example.com", "Second2!bb".to_string()), Ok(()));
    let entry = db.applications.get_registrant("ada@example.com").unwrap();
    assert_eq!(entry.password, Some("Second2!bb".to_string()));
    assert_eq!(entry.status, RegistrantStatus::Created("123456".to_string()));
}

#[test]
fn single_valid_recovery_code() {
    let mut db = Db::new();
    db.request_password_reset(socket("127.0.0.1:4000"), "e@example.com".to_string(), "A1".to_string());
    db.request_password_reset(socket("127.0.0.1:4000"), "e@example.com".to_string(), "B2".to_string());
    assert_eq!(
        db.reset_password(socket("127.0.0.1:4000"), "A1", ResetEvent::Requested),
        ResetAction::Reply(Err(AppError::BadReq("Password Reset code not found")))
    );
    assert_eq!(
        db.reset_password(socket("127.0.0.1:4000"), "B2", ResetEvent::Requested),
        ResetAction::UpdatePassword { email: "e@example.com".to_string() }
    );
    assert_eq!(db.applications.get_recovery("e@example.com"), Some("B2".to_string()));
}

#[test]
fn a_code_works_until_the_password_is_stored() {
    let mut db = Db::new();
    let s = socket("127.0.0.1:4000");
    db.request_password_reset(s.duplicate(), "e@example.com".to_string(), "A1".to_string());
    assert_eq!(
        db.reset_password(s.duplicate(), "A1", ResetEvent::UpdateFailed(AppError::ServerError)),
        ResetAction::Reply(Err(AppError::ServerError))
    );
    assert_eq!(
        db.reset_password(s.duplicate(), "A1", ResetEvent::Requested),
        ResetAction::UpdatePassword { email: "e@example.com".to_string() }
    );
    assert_eq!(
        db.reset_password(
            s.duplicate(),
            "A1",
            ResetEvent::Updated { email: "e@example.com".to_string() }
        ),
        ResetAction::Reply(Ok("e@example.com".to_string()))
    );
    assert_eq!(
        db.reset_password(s, "A1", ResetEvent::Requested),
        ResetAction::Reply(Err(AppError::BadReq("Password Reset code not found")))
    );
    assert_eq!(db.applications.get_recovery("e@example.com"), None);
}

#[test]
fn connection_close_purges_the_registration() {
    let mut db = Db::new();
    started(&mut db, "127.0.0.1:4000", "ada@example.com", "123456");
    db.drop_application(&socket("127.0.0.1:4000"));
    assert!(!db.applications.is_email_present("ada@example.com"));
    assert_eq!(db.verify_registrant_email("ada@example.com", "123456"), Err(AppError::UserNotFound));
}

#[test]
fn closing_another_connection_purges_nothing() {
    let mut db = Db::new();
    started(&mut db, "127.0.0.1:4000", "ada@example.com", "123456");
    db.drop_application(&socket("127.0.0.1:4001"));
    assert!(db.applications.is_email_present("ada@example.com"));
    db.drop_application(&socket("127.0.0.1:4000"));
    db.drop_application(&socket("127.0.0.1:4000"));
    assert!(!db.applications.is_email_present("ada@example.com"));
}

#[test]
fn email_update_cross_check() {
    let mut db = Db::new();
    let r = db.request_email_update(
        socket("127.0.0.1:4000"),
        "old@x".to_string(),
        "new@x".to_string(),
        "999999".to_string(),
        false,
    );
    assert_eq!(r, Ok(()));
    assert_eq!(
        db.update_email("old@x", "new@x", "111111", EmailUpdateEvent::Requested),
        EmailUpdateAction::Reply(Err(AppError::InvalidOTP))
    );
    assert_eq!(
        db.update_email("wrong@x", "new@x", "999999", EmailUpdateEvent::Requested),
        EmailUpdateAction::Reply(Err(AppError::BadReq("New email didn't match")))
    );
    assert_eq!(
        db.update_email("wrong@x", "new@x", "111111", EmailUpdateEvent::Requested),
        EmailUpdateAction::Reply(Err(AppError::InvalidOTP))
    );
    assert_eq!(
        db.update_email("old@x", "new@x", "999999", EmailUpdateEvent::Requested),
        EmailUpdateAction::Persist
    );
    assert_eq!(
        db.update_email("old@x", "new@x", "999999", EmailUpdateEvent::PersistFailed),
        EmailUpdateAction::Reply(Err(AppError::ServerError))
    );
    assert!(db.applications.is_email_present("new@x"));
    assert_eq!(
        db.update_email("old@x", "new@x", "999999", EmailUpdateEvent::Persisted),
        EmailUpdateAction::Reply(Ok(()))
    );
    assert_eq!(
        db.update_email("old@x", "new@x", "999999", EmailUpdateEvent::Requested),
        EmailUpdateAction::Reply(Err(AppError::UserNotFound))
    );
}

#[test]
fn email_update_needs_an_updating_entry() {
    let mut db = Db::new();
    started(&mut db, "127.0.0.1:4000", "new@x", "999999");
    assert_eq!(
        db.update_email("old@x", "new@x", "999999", EmailUpdateEvent::Requested),
        EmailUpdateAction::Reply(Err(AppError::BadReq("Please verify the email")))
    );
    let taken = db.request_email_update(
        socket("127.0.0.1:4001"),
        "old@x".to_string(),
        "new@x".to_string(),
        "1".to_string(),
        false,
    );
    assert_eq!(taken, Err(AppError::EmailTaken));
}

#[test]
fn oidc_attempt_is_found_until_it_is_removed() {
    let mut db = Db::new();
    db.add_oidc_info(
        socket("127.0.0.1:4000"),
        "state-1".to_string(),
        "verifier".to_string(),
        "nonce".to_string(),
        OAuthProvider::Google,
    );
    let info = db.get_oidc_info("state-1").unwrap();
    assert_eq!(info.socket_addr, socket("127.0.0.1:4000"));
    assert_eq!(info.code_verifier, "verifier");
    assert_eq!(info.nonce, "nonce");
    assert_eq!(info.provider, OAuthProvider::Google);
    assert!(db.get_oidc_info("state-1").is_some());
    assert_eq!(db.get_oidc_info("state-2"), None);
    db.remove_oidc_info("state-1");
    assert_eq!(db.get_oidc_info("state-1"), None);
}

#[test]
fn finalize_without_icon_then_twice() {
    let mut db = Db::new();
    started(&mut db, "127.0.0.1:4000", "ada@example.com", "123456");
    assert_eq!(db.set_registrant_password("ada@example.com", "Passw0rd!".to_string()), Ok(()));
    let taken = db.set_registrant_username(
        "ada@example.com".to_string(),
        "ada.lovelace".to_string(),
        UsernameEvent::Requested { username_taken: true },
    );
    assert_eq!(taken, UsernameAction::Reply(Err(AppError::UsernameTaken)));
    let first = db.set_registrant_username(
        "ada@example.com".to_string(),
        "ada.lovelace".to_string(),
        UsernameEvent::Requested { username_taken: false },
    );
    let user = match first {
        UsernameAction::Create { user } => user,
        other => panic!("unexpected action {:?}", other),
    };
    assert_eq!(user.display_name, "Ada");
    assert_eq!(user.email, "ada@example.com");
    assert_eq!(user.username, "ada.lovelace");
    assert_eq!(user.password, Some("Passw0rd!".to_string()));
    assert_eq!(user.icon, None);
    assert_eq!(user.banner, None);
    assert_eq!(user.bio, None);
    assert_eq!(user.birth_date, None);
    assert_eq!(user.oauth_provider, OAuthProvider::NoProvider);
    assert_eq!(user.id >> 76 & 0xF, 4);
    let age = time::OffsetDateTime::now_utc() - user.created;
    assert!(age >= time::Duration::ZERO && age < time::Duration::minutes(1));
    assert!(db.applications.is_email_present("ada@example.com"));
    let id = user.id;
    let done = db.set_registrant_username(
        "ada@example.com".to_string(),
        "ada.lovelace".to_string(),
        UsernameEvent::Created { user },
    );
    match done {
        UsernameAction::Reply(Ok(user)) => assert_eq!(user.id, id),
        other => panic!("unexpected action {:?}", other),
    }
    assert!(!db.applications.is_email_present("ada@example.com"));
    // by now the persistent store knows the username
    let second = db.set_registrant_username(
        "ada@example.com".to_string(),
        "ada.lovelace".to_string(),
        UsernameEvent::Requested { username_taken: true },
    );
    assert_eq!(second, UsernameAction::Reply(Err(AppError::UserNotFound)));
    let third = db.set_registrant_username(
        "ada@example.com".to_string(),
        "ada.byron".to_string(),
        UsernameEvent::Requested { username_taken: false },
    );
    assert_eq!(third, UsernameAction::Reply(Err(AppError::UserNotFound)));
}

#[test]
fn an_unknown_email_finds_no_user_whatever_the_username() {
    let mut db = Db::new();
    for username_taken in [false, true] {
        let action = db.set_registrant_username(
            "nobody@example.com".to_string(),
            "ada.lovelace".to_string(),
            UsernameEvent::Requested { username_taken },
        );
        assert_eq!(action, UsernameAction::Reply(Err(AppError::UserNotFound)));
    }
}

#[test]
fn a_purge_takes_what_the_index_handed_out() {
    let mut db = Db::new();
    started(&mut db, "127.0.0.1:4000", "ada@example.com", "123456");
    started(&mut db, "127.0.0.1:4001", "eve@example.com", "654321");
    db.purge_found(None);
    assert!(db.applications.is_email_present("ada@example.com"));
    assert!(db.applications.is_email_present("eve@example.com"));
    db.purge_found(Some(identity::applications::record::DropType::Registrant(
        "ada@example.com".to_string(),
    )));
    assert!(!db.applications.is_email_present("ada@example.com"));
    assert!(db.applications.is_email_present("eve@example.com"));
    // the ledger alone was touched: the endpoint is still in the index
    assert_eq!(
        db.applications.take_socket(&socket("127.0.0.1:4000")),
        Some(identity::applications::record::DropType::Registrant("ada@example.com".to_string()))
    );
    db.purge_found(Some(identity::applications::record::DropType::Registrant(
        "nobody@example.com".to_string(),
    )));
    assert!(db.applications.is_email_present("eve@example.com"));
}

#[test]
fn a_removed_registration_takes_its_pointer_along() {
    let mut db = Db::new();
    started(&mut db, "127.0.0.1:4002", "eve@example.com", "1");
    let removed = db.applications.remove_registrant("eve@example.com").unwrap();
    assert_eq!(removed.socket_addr, socket("127.0.0.1:4002"));
    assert!(!db.applications.is_email_present("eve@example.com"));
    assert_eq!(db.applications.get_socket(&socket("127.0.0.1:4002")), None);
    assert_eq!(db.applications.remove_registrant("eve@example.com"), None);
}

#[test]
fn a_pointer_is_retired_where_it_names_the_email() {
    use_pointer("ada@example.com", Some("ada@example.com"), false);
    use_pointer("ada@example.com", Some("eve@example.com"), true);
    use_pointer("ada@example.com", Some("ada@example.co"), true);
    use_pointer("ada@example.com", None, true);
}

fn use_pointer(email: &str, named: Option<&str>, stays: bool) {
    let mut db = Db::new();
    started(&mut db, "127.0.0.1:4000", "eve@example.com", "1");
    let pointer = named.map(|n| DropType::Registrant(n.to_string()));
    db.applications.retire_pointer(email, &socket("127.0.0.1:4000"), pointer);
    assert_eq!(db.applications.get_socket(&socket("127.0.0.1:4000")).is_some(), stays);
    // the ledger is not touched
    assert!(db.applications.is_email_present("eve@example.com"));
}

#[test]
fn retiring_a_registration_keeps_the_pointer_of_a_later_one() {
    let mut db = Db::new();
    let s = "127.0.0.1:4000";
    started(&mut db, s, "first@example.com", "111111");
    started(&mut db, s, "second@example.com", "222222");
    assert_eq!(
        db.applications.get_socket(&socket(s)),
        Some(DropType::Registrant("second@example.com".to_string()))
    );
    let removed = db.applications.remove_registrant("first@example.com").unwrap();
    assert_eq!(removed.socket_addr, socket(s));
    assert!(!db.applications.is_email_present("first@example.com"));
    assert_eq!(
        db.applications.get_socket(&socket(s)),
        Some(DropType::Registrant("second@example.com".to_string()))
    );
    assert!(db.applications.is_email_present("second@example.com"));
    db.drop_application(&socket(s));
    assert!(!db.applications.is_email_present("second@example.com"));
    assert_eq!(db.applications.get_socket(&socket(s)), None);
}

#[test]
fn finalizing_one_registration_leaves_the_close_to_purge_the_next() {
    let mut db = Db::new();
    let s = "127.0.0.1:4000";
    started(&mut db, s, "first@example.com", "111111");
    started(&mut db, s, "second@example.com", "222222");
    let user = match db.set_registrant_username(
        "first@example.com".to_string(),
        "first.user".to_string(),
        UsernameEvent::Requested { username_taken: false },
    ) {
        UsernameAction::Create { user } => user,
        other => panic!("unexpected action {:?}", other),
    };
    let done = db.set_registrant_username(
        "first@example.com".to_string(),
        "first.user".to_string(),
        UsernameEvent::Created { user },
    );
    assert!(matches!(done, UsernameAction::Reply(Ok(_))));
    assert!(!db.applications.is_email_present("first@example.com"));
    assert!(db.applications.is_email_present("second@example.com"));
    db.drop_application(&socket(s));
    assert!(!db.applications.is_email_present("second@example.com"));
}

#[test]
fn committing_an_email_change_leaves_the_close_to_purge_the_next() {
    let mut db = Db::new();
    let s = "127.0.0.1:4000";
    let asked = db.request_email_update(
        socket(s),
        "old@x".to_string(),
        "new@x".to_string(),
        "999999".to_string(),
        false,
    );
    assert_eq!(asked, Ok(()));
    started(&mut db, s, "second@example.com", "222222");
    assert_eq!(
        db.update_email("old@x", "new@x", "999999", EmailUpdateEvent::Persisted),
        EmailUpdateAction::Reply(Ok(()))
    );
    assert!(!db.applications.is_email_present("new@x"));
    db.drop_application(&socket(s));
    assert!(!db.applications.is_email_present("second@example.com"));
}

#[test]
fn a_code_is_issued_over_the_earlier_one() {
    let mut db = Db::new();
    db.issue_code("e@example.com".to_string(), "A1".to_string(), None);
    assert_eq!(db.applications.get_recovery("A1"), Some("e@example.com".to_string()));
    assert_eq!(db.applications.get_recovery("e@example.com"), Some("A1".to_string()));
    db.issue_code("f@example.com".to_string(), "F1".to_string(), None);
    // handed nothing, the call leaves the earlier code in place
    db.issue_code("e@example.com".to_string(), "B2".to_string(), None);
    assert_eq!(db.applications.get_recovery("A1"), Some("e@example.com".to_string()));
    assert_eq!(db.applications.get_recovery("B2"), Some("e@example.com".to_string()));
    assert_eq!(db.applications.get_recovery("e@example.com"), Some("B2".to_string()));
    // handed the earlier code, it retires it
    db.issue_code("e@example.com".to_string(), "C3".to_string(), Some("B2".to_string()));
    assert_eq!(db.applications.get_recovery("B2"), None);
    assert_eq!(db.applications.get_recovery("C3"), Some("e@example.com".to_string()));
    assert_eq!(db.applications.get_recovery("e@example.com"), Some("C3".to_string()));
    // the other email is left alone
    assert_eq!(db.applications.get_recovery("F1"), Some("f@example.com".to_string()));
    assert_eq!(db.applications.get_recovery("f@example.com"), Some("F1".to_string()));
}

#[test]
fn issuing_a_code_leaves_other_emails_and_stores_alone() {
    let mut db = Db::new();
    started(&mut db, "127.0.0.1:4000", "ada@example.com", "123456");
    db.request_password_reset(socket("127.0.0.1:1"), "f@example.com".to_string(), "F1".to_string());
    db.request_password_reset(socket("127.0.0.1:1"), "e@example.com".to_string(), "A1".to_string());
    db.request_password_reset(socket("127.0.0.1:1"), "e@example.com".to_string(), "B2".to_string());
    assert_eq!(db.applications.get_recovery("e@example.com"), Some("B2".to_string()));
    assert_eq!(db.applications.get_recovery("B2"), Some("e@example.com".to_string()));
    assert_eq!(db.applications.get_recovery("A1"), None);
    assert_eq!(db.applications.get_recovery("F1"), Some("f@example.com".to_string()));
    assert_eq!(db.applications.get_recovery("f@example.com"), Some("F1".to_string()));
    assert!(db.applications.is_email_present("ada@example.com"));
    assert_eq!(db.applications.get_recovery("127.0.0.1:1"), None);
}

#[test]
fn finalize_with_icon() {
    let mut db = Db::new();
    let r = db.create_registrant_oidc(
        socket("127.0.0.1:4000"),
        "Ada".to_string(),
        "ada@example.com".to_string(),
        "https://cdn.example.com/a/photo=s96-c".to_string(),
        OAuthProvider::Google,
        false,
    );
    assert_eq!(r, Ok(()));
    let first = db.set_registrant_username(
        "ada@example.com".to_string(),
        "ada.lovelace".to_string(),
        UsernameEvent::Requested { username_taken: false },
    );
    let (url, pending) = match first {
        UsernameAction::Download { url, pending } => (url, pending),
        other => panic!("unexpected action {:?}", other),
    };
    assert_eq!(url, "https://cdn.example.com/a/photo=s96-c");
    let failed = db.set_registrant_username(
        "ada@example.com".to_string(),
        "ada.lovelace".to_string(),
        UsernameEvent::Downloaded { pending: pending.clone(), data: None },
    );
    assert_eq!(failed, UsernameAction::Reply(Err(AppError::ServerError)));
    let too_small = db.set_registrant_username(
        "ada@example.com".to_string(),
        "ada.lovelace".to_string(),
        UsernameEvent::Downloaded {
            pending: pending.clone(),
            data: Some(bytes::Bytes::from(png(64, 64))),
        },
    );
    assert_eq!(
        too_small,
        UsernameAction::Reply(Err(AppError::Validation(
            identity::validation::ValidationError::InvalidData(
                "Icon too small: min 96x96".to_string()
            )
        )))
    );
    let second = db.set_registrant_username(
        "ada@example.com".to_string(),
        "ada.lovelace".to_string(),
        UsernameEvent::Downloaded {
            pending: pending.clone(),
            data: Some(bytes::Bytes::from(png(96, 96))),
        },
    );
    let (upload, pending) = match second {
        UsernameAction::Upload { upload, pending } => (upload, pending),
        other => panic!("unexpected action {:?}", other),
    };
    let id = uuid::Uuid::from_u128(pending.id).to_string();
    assert_eq!(upload.object_name, format!("icon/{}-photo.png", id));
    assert_eq!(upload.content_type, "image/png");
    let refused = db.set_registrant_username(
        "ada@example.com".to_string(),
        "ada.lovelace".to_string(),
        UsernameEvent::Uploaded { pending: pending.clone(), url: None },
    );
    assert_eq!(refused, UsernameAction::Reply(Err(AppError::ServerError)));
    let third = db.set_registrant_username(
        "ada@example.com".to_string(),
        "ada.lovelace".to_string(),
        UsernameEvent::Uploaded {
            pending: PendingUser { id: pending.id, entry: pending.entry.clone() },
            url: Some("https://files.example.com/icon/x-photo.png".to_string()),
        },
    );
    let user = match third {
        UsernameAction::Create { user } => user,
        other => panic!("unexpected action {:?}", other),
    };
    assert_eq!(user.id, pending.id);
    assert_eq!(user.icon, Some("https://files.example.com/icon/x-photo.png".to_string()));
    assert_eq!(user.oauth_provider, OAuthProvider::Google);
    assert_eq!(user.password, None);
}

#[test]
fn an_email_change_cannot_become_an_account() {
    let mut db = Db::new();
    let r = db.request_email_update(
        socket("127.0.0.1:4000"),
        "old@x".to_string(),
        "new@x".to_string(),
        "999999".to_string(),
        false,
    );
    assert_eq!(r, Ok(()));
    let action = db.set_registrant_username(
        "new@x".to_string(),
        "ada.lovelace".to_string(),
        UsernameEvent::Requested { username_taken: false },
    );
    assert_eq!(action, UsernameAction::Reply(Err(AppError::ServerError)));
}

#[test]
fn icon_file_names() {
    assert_eq!(icon_file_name("https://cdn.example.com/a/photo=s96-c"), "photo");
    assert_eq!(icon_file_name("https://cdn.example.com/a/photo.png"), "photo.png");
    assert_eq!(icon_file_name("photo=1=2"), "photo");
    assert_eq!(icon_file_name("a=b/c"), "c");
    assert_eq!(icon_file_name("https://cdn.example.com/"), "");
    assert_eq!(icon_file_name(""), "");
    assert_eq!(icon_file_name("=x"), "");
}

#[test]
fn stores_can_be_worked_with_directly() {
    let mut apps = Applications::new();
    apps.insert_recovery("k".to_string(), "v".to_string());
    assert_eq!(apps.get_recovery("k"), Some("v".to_string()));
    apps.invalidate_recovery("k");
    assert_eq!(apps.get_recovery("k"), None);
    assert_eq!(apps.take_socket(&socket("1.1.1.1:1")), None);
    assert_eq!(apps.remove_registrant("nobody@example.com"), None);
}
