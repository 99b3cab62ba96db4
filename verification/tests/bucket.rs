use bytes::Bytes;
use identity::bucket::b2::{
    AuthAction, AuthEvent, AuthorizeAccountResponse, BlackBlazeB2, DeleteAction, DeleteEvent,
    FileInfo, GetUploadUrlResponse, Request, UploadAction, UploadEvent, UploadUrlAction,
    UploadUrlEvent,
};
use identity::bucket::object::Upload;
use identity::db::Db;
use identity::error::AppError;
use identity::strings::pair;
use identity::validation::ValidationError;

fn bucket() -> BlackBlazeB2 {
    BlackBlazeB2::new(
        "account".to_string(),
        "key".to_string(),
        "https://api.b2.test".to_string(),
        "images".to_string(),
        "bucket-1".to_string(),
        "https://files.b2.test/file/images".to_string(),
    )
}

fn png(side: u32) -> Vec<u8> {
    let mut data = vec![0x89, 0x50, 0x4E, 0x47, 0x0D, 0x0A, 0x1A, 0x0A, 0, 0, 0, 13];
    data.extend_from_slice(b"IHDR");
    data.extend_from_slice(&side.to_be_bytes());
    data.extend_from_slice(&side.to_be_bytes());
    data.extend_from_slice(&[8, 6, 0, 0, 0]);
    data
}

#[test]
fn a_new_bucket_is_not_authorized() {
    let b = bucket();
    assert_eq!(b.api_url, "https://api.b2.test");
    assert_eq!(b.auth_token, None);
    assert_eq!(b.bucket_id, "bucket-1");
}

#[test]
fn the_account_is_authorized_once() {
    let mut b = bucket();
    assert_eq!(
        b.get_auth_token(AuthEvent::Requested),
        AuthAction::Authorize(Request {
            url: "https://api.b2.test/b2api/v2/b2_authorize_account".to_string(),
            headers: vec![pair("Authorization", "Basic YWNjb3VudDprZXk=")],
        })
    );
    assert_eq!(b.get_auth_token(AuthEvent::Answered(None)), AuthAction::Reply(Err(AppError::ServerError)));
    assert_eq!(b.auth_token, None);
    let answer = AuthorizeAccountResponse {
        authorization_token: "tok".to_string(),
        api_url: "https://api001.b2.test".to_string(),
    };
    assert_eq!(
        b.get_auth_token(AuthEvent::Answered(Some(answer))),
        AuthAction::Reply(Ok("tok".to_string()))
    );
    assert_eq!(b.api_url, "https://api001.b2.test");
    assert_eq!(b.endpoint, "https://api.b2.test");
    assert_eq!(b.get_auth_token(AuthEvent::Requested), AuthAction::Reply(Ok("tok".to_string())));
}

#[test]
fn a_refused_token_is_forgotten() {
    let mut b = bucket();
    b.auth_token = Some("tok".to_string());
    assert_eq!(
        b.get_upload_url(UploadUrlEvent::Requested { auth_token: "tok".to_string() }),
        UploadUrlAction::Ask {
            request: Request {
                url: "https://api.b2.test/b2api/v2/b2_get_upload_url".to_string(),
                headers: vec![pair("Authorization", "tok")],
            },
            bucket_id: "bucket-1".to_string(),
        }
    );
    assert_eq!(
        b.get_upload_url(UploadUrlEvent::Refused { status: 503 }),
        UploadUrlAction::Reply(Err(AppError::ServerError))
    );
    assert_eq!(b.auth_token, Some("tok".to_string()));
    assert_eq!(b.get_upload_url(UploadUrlEvent::Failed), UploadUrlAction::Reply(Err(AppError::ServerError)));
    assert_eq!(b.auth_token, Some("tok".to_string()));
    assert_eq!(
        b.get_upload_url(UploadUrlEvent::Refused { status: 401 }),
        UploadUrlAction::Reply(Err(AppError::ServerError))
    );
    assert_eq!(b.auth_token, None);
    let answer = GetUploadUrlResponse {
        upload_url: "https://pod.b2.test/upload".to_string(),
        authorization_token: "up".to_string(),
    };
    assert_eq!(
        b.get_upload_url(UploadUrlEvent::Answered(answer.clone())),
        UploadUrlAction::Reply(Ok(answer))
    );
}

#[test]
fn uploads_carry_length_name_and_digest() {
    let b = bucket();
    let data = Bytes::from_static(b"hello world");
    let name = "icon/7-my photo.png";
    assert_eq!(
        b.upload_file(&Bytes::new(), name, "image/png", UploadEvent::Requested),
        UploadAction::Reply(Err(AppError::ServerError))
    );
    assert_eq!(b.upload_file(&data, name, "image/png", UploadEvent::Requested), UploadAction::GetUploadUrl);
    assert_eq!(
        b.upload_file(&data, name, "image/png", UploadEvent::UrlFailed(AppError::ServerError)),
        UploadAction::Reply(Err(AppError::ServerError))
    );
    let info = GetUploadUrlResponse {
        upload_url: "https://pod.b2.test/upload".to_string(),
        authorization_token: "up".to_string(),
    };
    assert_eq!(
        b.upload_file(&data, name, "image/png", UploadEvent::UrlReady(info)),
        UploadAction::Send(Request {
            url: "https://pod.b2.test/upload".to_string(),
            headers: vec![
                pair("Authorization", "up"),
                pair("Content-Type", "image/png"),
                pair("Content-Length", "11"),
                pair("X-Bz-File-Name", "icon%2F7-my%20photo.png"),
                pair("X-Bz-Content-Sha1", "2aae6c35c94fcfb415dbe95f408b9ce91ee846ed"),
            ],
        })
    );
    assert_eq!(
        b.upload_file(&data, name, "image/png", UploadEvent::Sent { success: true }),
        UploadAction::Reply(Ok("https://files.b2.test/file/images/icon/7-my photo.png".to_string()))
    );
    assert_eq!(
        b.upload_file(&data, name, "image/png", UploadEvent::Sent { success: false }),
        UploadAction::Reply(Err(AppError::ServerError))
    );
}

#[test]
fn a_file_is_deleted_by_the_id_of_its_listing() {
    let b = bucket();
    let file = |id: &str, name: &str| FileInfo { file_id: id.to_string(), file_name: name.to_string() };
    let list = Request {
        url: "https://api.b2.test/b2api/v2/b2_list_file_names".to_string(),
        headers: vec![pair("Authorization", "tok")],
    };
    assert_eq!(
        b.delete_file("icon/a.png", DeleteEvent::Requested { auth_token: "tok".to_string() }),
        DeleteAction::List(list)
    );
    let listed = |files| DeleteEvent::Listed { auth_token: "tok".to_string(), files };
    assert_eq!(
        b.delete_file("icon/a.png", listed(None)),
        DeleteAction::Reply(Err(AppError::ServerError))
    );
    assert_eq!(
        b.delete_file("icon/a.png", listed(Some(vec![]))),
        DeleteAction::Reply(Err(AppError::ServerError))
    );
    assert_eq!(
        b.delete_file("icon/a.png", listed(Some(vec![file("1", "icon/a.png.bak")]))),
        DeleteAction::Reply(Err(AppError::ServerError))
    );
    let files = vec![file("1", "icon/a.png.bak"), file("2", "icon/a.png"), file("3", "icon/a.png")];
    assert_eq!(
        b.delete_file("icon/a.png", listed(Some(files))),
        DeleteAction::Delete {
            request: Request {
                url: "https://api.b2.test/b2api/v2/b2_delete_file_version".to_string(),
                headers: vec![pair("Authorization", "tok")],
            },
            file_id: "2".to_string(),
        }
    );
    assert_eq!(
        b.delete_file("icon/a.png", DeleteEvent::Deleted { success: true }),
        DeleteAction::Reply(Ok(()))
    );
    assert_eq!(
        b.delete_file("icon/a.png", DeleteEvent::Deleted { success: false }),
        DeleteAction::Reply(Err(AppError::ServerError))
    );
}

#[test]
fn icons_and_banners_are_named_by_their_owner() {
    let db = Db::new();
    assert_eq!(
        db.upload_icon(&Bytes::from(png(128)), "me/face".to_string(), "7"),
        Ok(Upload { object_name: "icon/7-me-face.png".to_string(), content_type: "image/png".to_string() })
    );
    assert_eq!(
        db.upload_icon(&Bytes::from(png(32)), "face.png".to_string(), "7"),
        Err(AppError::Validation(ValidationError::InvalidData("Icon too small: min 96x96".to_string())))
    );
    assert_eq!(
        db.upload_banner(&Bytes::from(png(32)), "wide.png".to_string(), "7"),
        Ok(Upload { object_name: "banner/7-wide.png".to_string(), content_type: "image/png".to_string() })
    );
    assert_eq!(
        db.upload_banner(&Bytes::from_static(b"text"), "wide.png".to_string(), "7"),
        Err(AppError::Validation(ValidationError::UnknownImageFormat))
    );
}
