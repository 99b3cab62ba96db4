//! What the service says to a Backblaze B2 bucket, and what it makes of the
//! answers.

use crate::encoding::{
    ENCODE_LIMIT, base64_standard, digest_hex, encode_standard, percent_encode, percent_encoded,
    sha1_hex,
};
use crate::error::AppError;
use crate::strings::{byte_len, decimal, digits, pair, pairs, same_text, utf8_len};
use crate::validation::image::{as_slice, held};
use bytes::Bytes;
use vstd::prelude::*;
use vstd::string::StringExecFns;

verus! {

/// A bucket and the account that reaches it.
#[derive(Clone, Debug, PartialEq)]
pub struct BlackBlazeB2 {
    pub account_id: String,
    pub application_key: String,
    pub endpoint: String,
    pub name: String,
    pub bucket_id: String,
    /// Where the API is reached: the endpoint until the account is
    /// authorized, then what the authorization named.
    pub api_url: String,
    /// The token of the last authorization, until the bucket refuses it.
    pub auth_token: Option<String>,
    pub public_url: String,
}

#[derive(Clone, Debug, PartialEq)]
pub struct AuthorizeAccountResponse {
    pub authorization_token: String,
    pub api_url: String,
}

#[derive(Clone, Debug, PartialEq)]
pub struct GetUploadUrlResponse {
    pub upload_url: String,
    pub authorization_token: String,
}

/// A file as the bucket lists it.
#[derive(Clone, Debug, PartialEq)]
pub struct FileInfo {
    pub file_id: String,
    pub file_name: String,
}

/// A request to the bucket: where it goes and the headers that it carries.
#[derive(Clone, Debug, PartialEq)]
pub struct Request {
    pub url: String,
    pub headers: Vec<(String, String)>,
}

/// Whether a request goes to an address with these headers.
pub open spec fn request_is(request: Request, url: Seq<char>, headers: Seq<(Seq<char>, Seq<char>)>) -> bool {
    request.url@ == url && pairs(request.headers@) == headers
}

/// The header that authorizes an account by its key.
pub open spec fn basic_authorization(account_id: Seq<char>, application_key: Seq<char>) -> Seq<char> {
    "Basic "@ + base64_standard(vstd::utf8::encode_utf8(account_id + ":"@ + application_key))
}

/// The headers that an upload carries.
pub open spec fn upload_headers(
    token: Seq<char>,
    content_type: Seq<char>,
    data: Seq<u8>,
    filename: Seq<char>,
) -> Seq<(Seq<char>, Seq<char>)> {
    seq![
        ("Authorization"@, token),
        ("Content-Type"@, content_type),
        ("Content-Length"@, digits(data.len())),
        ("X-Bz-File-Name"@, percent_encoded(filename)),
        ("X-Bz-Content-Sha1"@, sha1_hex(data)),
    ]
}

/// The place of the first file of a list that has a name; none where no
/// file has it.
pub open spec fn first_named(files: Seq<FileInfo>, name: Seq<char>) -> Option<int>
    decreases files.len(),
{
    if files.len() == 0 {
        None
    } else {
        match first_named(files.drop_last(), name) {
            Some(place) => Some(place),
            None => if files.last().file_name@ == name {
                Some(files.len() - 1)
            } else {
                None
            },
        }
    }
}

/// What the service hands to `get_auth_token` at each turn.
#[derive(Debug, PartialEq)]
pub enum AuthEvent {
    /// A token is needed.
    Requested,
    /// The bucket answered the authorization, or the call failed.
    Answered(Option<AuthorizeAccountResponse>),
}

/// What `get_auth_token` asks the service to do next.
#[derive(Debug, PartialEq)]
pub enum AuthAction {
    /// Send this request, then come back with the answer.
    Authorize(Request),
    /// The token, or the error.
    Reply(Result<String, AppError>),
}

/// What the service hands to `get_upload_url` at each turn.
#[derive(Debug, PartialEq)]
pub enum UploadUrlEvent {
    /// An upload address is needed; this is the account's token.
    Requested { auth_token: String },
    /// The bucket refused with this status.
    Refused { status: u16 },
    /// The call failed, or the answer could not be read.
    Failed,
    /// The bucket answered.
    Answered(GetUploadUrlResponse),
}

/// What `get_upload_url` asks the service to do next.
#[derive(Debug, PartialEq)]
pub enum UploadUrlAction {
    /// Send this request with the bucket's identifier, then come back.
    Ask { request: Request, bucket_id: String },
    /// The upload address, or the error.
    Reply(Result<GetUploadUrlResponse, AppError>),
}

/// What the service hands to `upload_file` at each turn.
#[derive(Debug, PartialEq)]
pub enum UploadEvent {
    /// A file is to be uploaded.
    Requested,
    /// No upload address could be had.
    UrlFailed(AppError),
    /// This is the upload address.
    UrlReady(GetUploadUrlResponse),
    /// The upload was sent; the bucket took it or did not.
    Sent { success: bool },
}

/// What `upload_file` asks the service to do next.
#[derive(Debug, PartialEq)]
pub enum UploadAction {
    /// Get an upload address, then come back with it.
    GetUploadUrl,
    /// Send the file with this request, then come back.
    Send(Request),
    /// The public address of the file, or the error.
    Reply(Result<String, AppError>),
}

/// What the service hands to `delete_file` at each turn.
#[derive(Debug, PartialEq)]
pub enum DeleteEvent {
    /// A file is to be deleted; this is the account's token.
    Requested { auth_token: String },
    /// The bucket listed these files, or the listing failed.
    Listed { auth_token: String, files: Option<Vec<FileInfo>> },
    /// The deletion was sent; the bucket did it or did not.
    Deleted { success: bool },
}

/// What `delete_file` asks the service to do next.
#[derive(Debug, PartialEq)]
pub enum DeleteAction {
    /// List the file of this name (one at most, from this name on), then
    /// come back with the listing.
    List(Request),
    /// Delete the version of the file that has this identifier, then come
    /// back.
    Delete { request: Request, file_id: String },
    /// Done, or the error.
    Reply(Result<(), AppError>),
}

fn one_header(name: &str, value: &str) -> (r: Vec<(String, String)>)
    ensures
        pairs(r@) == seq![(name@, value@)],
{
    let mut headers: Vec<(String, String)> = Vec::new();
    headers.push(pair(name, value));
    proof {
        assert(pairs(headers@) =~= seq![(name@, value@)]);
    }
    headers
}

/// Finds the first file of a list that has a name.
fn find_file(files: &Vec<FileInfo>, name: &str) -> (r: Option<usize>)
    ensures
        match first_named(files@, name@) {
            Some(place) => r == Some(place as usize) && 0 <= place < files@.len(),
            None => r is None,
        },
{
    let mut i: usize = 0;
    while i < files.len()
        invariant
            i <= files@.len(),
            first_named(files@.take(i as int), name@) is None,
        decreases files@.len() - i,
    {
        proof {
            assert(files@.take(i + 1).drop_last() =~= files@.take(i as int));
        }
        if same_text(files[i].file_name.as_str(), name) {
            proof {
                lemma_first_named(files@, name@, i + 1);
            }
            return Some(i);
        }
        i += 1;
    }
    proof {
        assert(files@.take(files@.len() as int) =~= files@);
    }
    None
}

fn api_address(api_url: &str, call: &str) -> (r: String)
    ensures
        r@ == api_url@ + "/b2api/v2/"@ + call@,
{
    let mut url = api_url.to_owned();
    url.append("/b2api/v2/");
    url.append(call);
    url
}

impl BlackBlazeB2 {
    /// A bucket that no account is authorized for yet.
    pub fn new(
        account_id: String,
        application_key: String,
        endpoint: String,
        name: String,
        bucket_id: String,
        public_url: String,
    ) -> (r: Self)
        ensures
            r.account_id == account_id,
            r.application_key == application_key,
            r.endpoint == endpoint,
            r.name == name,
            r.bucket_id == bucket_id,
            r.public_url == public_url,
            r.api_url@ == endpoint@,
            r.auth_token is None,
    {
        let api_url = endpoint.clone();
        BlackBlazeB2 {
            account_id,
            application_key,
            endpoint,
            name,
            bucket_id,
            api_url,
            auth_token: None,
            public_url,
        }
    }

    /// Gets the token of the account, in two turns at most. Asked with
    /// `Requested`, it answers with the token that it has, or asks for the
    /// account to be authorized at the endpoint; credentials of more than a
    /// gigabyte are a `ServerError`. Told `Answered` with an answer, it
    /// remembers the token and the API address and answers with the token;
    /// told `Answered` without one, it answers `ServerError`.
    pub fn get_auth_token(&mut self, event: AuthEvent) -> (action: AuthAction)
        ensures
            match event {
                AuthEvent::Requested => *final(self) == *old(self) && match old(self).auth_token {
                    Some(token) => action matches AuthAction::Reply(Ok(given)) && given@
                        == token@,
                    None => if utf8_len(old(self).account_id@ + ":"@ + old(self).application_key@)
                        <= ENCODE_LIMIT {
                        action matches AuthAction::Authorize(request) && request_is(
                            request,
                            old(self).endpoint@ + "/b2api/v2/"@ + "b2_authorize_account"@,
                            seq![
                                (
                                    "Authorization"@,
                                    basic_authorization(
                                        old(self).account_id@,
                                        old(self).application_key@,
                                    ),
                                ),
                            ],
                        )
                    } else {
                        action matches AuthAction::Reply(Err(error)) && error
                            == AppError::ServerError
                    },
                },
                AuthEvent::Answered(Some(answer)) => {
                    &&& action matches AuthAction::Reply(Ok(given)) && given@
                        == answer.authorization_token@
                    &&& final(self).auth_token matches Some(kept) && kept@
                        == answer.authorization_token@
                    &&& final(self).api_url@ == answer.api_url@
                    &&& final(self).account_id == old(self).account_id
                    &&& final(self).application_key == old(self).application_key
                    &&& final(self).endpoint == old(self).endpoint
                    &&& final(self).name == old(self).name
                    &&& final(self).bucket_id == old(self).bucket_id
                    &&& final(self).public_url == old(self).public_url
                },
                AuthEvent::Answered(None) => *final(self) == *old(self) && (action
                    matches AuthAction::Reply(Err(error)) && error == AppError::ServerError),
            },
    {
        match event {
            AuthEvent::Requested => {
                match &self.auth_token {
                    Some(token) => {
                        return AuthAction::Reply(Ok(token.clone()));
                    },
                    None => {},
                }
                let mut credentials = self.account_id.clone();
                credentials.append(":");
                credentials.append(self.application_key.as_str());
                if byte_len(credentials.as_str()) > ENCODE_LIMIT {
                    return AuthAction::Reply(Err(AppError::ServerError));
                }
                let mut header = "Basic ".to_owned();
                header.append(encode_standard(credentials.as_str().as_bytes()).as_str());
                AuthAction::Authorize(
                    Request {
                        url: api_address(self.endpoint.as_str(), "b2_authorize_account"),
                        headers: one_header("Authorization", header.as_str()),
                    },
                )
            },
            AuthEvent::Answered(Some(answer)) => {
                self.api_url = answer.api_url;
                self.auth_token = Some(answer.authorization_token.clone());
                AuthAction::Reply(Ok(answer.authorization_token))
            },
            AuthEvent::Answered(None) => AuthAction::Reply(Err(AppError::ServerError)),
        }
    }

    /// Gets an address to upload to. Asked with `Requested`, it asks for the
    /// address at the API. Told `Refused`, it answers `ServerError`, and
    /// forgets its token where the status is 401, so that the next call
    /// authorizes anew. Told `Failed`, it answers `ServerError`. Told
    /// `Answered`, it answers with the address.
    pub fn get_upload_url(&mut self, event: UploadUrlEvent) -> (action: UploadUrlAction)
        ensures
            match event {
                UploadUrlEvent::Requested { auth_token } => *final(self) == *old(self) && (action
                    matches UploadUrlAction::Ask { request, bucket_id } && bucket_id@ == old(
                    self,
                ).bucket_id@ && request_is(
                    request,
                    old(self).api_url@ + "/b2api/v2/"@ + "b2_get_upload_url"@,
                    seq![("Authorization"@, auth_token@)],
                )),
                UploadUrlEvent::Refused { status } => {
                    &&& action matches UploadUrlAction::Reply(Err(error)) && error
                        == AppError::ServerError
                    &&& if status == 401 {
                        &&& final(self).auth_token is None
                        &&& final(self).api_url == old(self).api_url
                        &&& final(self).account_id == old(self).account_id
                        &&& final(self).application_key == old(self).application_key
                        &&& final(self).endpoint == old(self).endpoint
                        &&& final(self).name == old(self).name
                        &&& final(self).bucket_id == old(self).bucket_id
                        &&& final(self).public_url == old(self).public_url
                    } else {
                        *final(self) == *old(self)
                    }
                },
                UploadUrlEvent::Failed => *final(self) == *old(self) && (action
                    matches UploadUrlAction::Reply(Err(error)) && error == AppError::ServerError),
                UploadUrlEvent::Answered(answer) => *final(self) == *old(self) && action
                    == UploadUrlAction::Reply(Ok(answer)),
            },
    {
        match event {
            UploadUrlEvent::Requested { auth_token } => UploadUrlAction::Ask {
                request: Request {
                    url: api_address(self.api_url.as_str(), "b2_get_upload_url"),
                    headers: one_header("Authorization", auth_token.as_str()),
                },
                bucket_id: self.bucket_id.clone(),
            },
            UploadUrlEvent::Refused { status } => {
                if status == 401 {
                    self.auth_token = None;
                }
                UploadUrlAction::Reply(Err(AppError::ServerError))
            },
            UploadUrlEvent::Failed => UploadUrlAction::Reply(Err(AppError::ServerError)),
            UploadUrlEvent::Answered(answer) => UploadUrlAction::Reply(Ok(answer)),
        }
    }

    /// Uploads a file. Asked with `Requested`, it turns an empty file down
    /// with `ServerError` and asks for an upload address otherwise. Told
    /// `UrlFailed`, it answers with that error. Told `UrlReady`, it asks for
    /// the file to be sent there, with its media type, its length, its
    /// percent-encoded name and its SHA-1 digest. Told `Sent`, it answers
    /// with the public address of the file, or `ServerError` where the bucket
    /// did not take it.
    pub fn upload_file(&self, data: &Bytes, filename: &str, content_type: &str, event: UploadEvent) -> (action: UploadAction)
        ensures
            match event {
                UploadEvent::Requested => if held(*data).len() == 0 {
                    action matches UploadAction::Reply(Err(error)) && error
                        == AppError::ServerError
                } else {
                    action is GetUploadUrl
                },
                UploadEvent::UrlFailed(error) => action matches UploadAction::Reply(Err(given))
                    && given == error,
                UploadEvent::UrlReady(info) => action matches UploadAction::Send(request)
                    && request_is(
                    request,
                    info.upload_url@,
                    upload_headers(
                        info.authorization_token@,
                        content_type@,
                        held(*data),
                        filename@,
                    ),
                ),
                UploadEvent::Sent { success } => if success {
                    action matches UploadAction::Reply(Ok(address)) && address@
                        == self.public_url@ + "/"@ + filename@
                } else {
                    action matches UploadAction::Reply(Err(error)) && error
                        == AppError::ServerError
                },
            },
    {
        match event {
            UploadEvent::Requested => {
                if as_slice(data).len() == 0 {
                    UploadAction::Reply(Err(AppError::ServerError))
                } else {
                    UploadAction::GetUploadUrl
                }
            },
            UploadEvent::UrlFailed(error) => UploadAction::Reply(Err(error)),
            UploadEvent::UrlReady(info) => {
                let bytes = as_slice(data);
                let mut headers: Vec<(String, String)> = Vec::new();
                headers.push(pair("Authorization", info.authorization_token.as_str()));
                headers.push(pair("Content-Type", content_type));
                headers.push(pair("Content-Length", decimal(bytes.len()).as_str()));
                headers.push(pair("X-Bz-File-Name", percent_encode(filename).as_str()));
                headers.push(pair("X-Bz-Content-Sha1", digest_hex(bytes).as_str()));
                proof {
                    assert(pairs(headers@) =~= upload_headers(
                        info.authorization_token@,
                        content_type@,
                        held(*data),
                        filename@,
                    ));
                }
                UploadAction::Send(Request { url: info.upload_url, headers })
            },
            UploadEvent::Sent { success } => {
                if success {
                    let mut address = self.public_url.clone();
                    address.append("/");
                    address.append(filename);
                    UploadAction::Reply(Ok(address))
                } else {
                    UploadAction::Reply(Err(AppError::ServerError))
                }
            },
        }
    }

    /// Deletes a file. Asked with `Requested`, it asks for the file to be
    /// listed. Told `Listed`, it picks the first listed file of that very
    /// name and asks for its deletion; a failed listing, or one without the
    /// file, is a `ServerError`. Told `Deleted`, it answers `Ok`, or
    /// `ServerError` where the bucket did not delete.
    pub fn delete_file(&self, filename: &str, event: DeleteEvent) -> (action: DeleteAction)
        ensures
            match event {
                DeleteEvent::Requested { auth_token } => action matches DeleteAction::List(
                    request,
                ) && request_is(
                    request,
                    self.api_url@ + "/b2api/v2/"@ + "b2_list_file_names"@,
                    seq![("Authorization"@, auth_token@)],
                ),
                DeleteEvent::Listed { auth_token, files: Some(files) } => match first_named(
                    files@,
                    filename@,
                ) {
                    Some(place) => action matches DeleteAction::Delete { request, file_id }
                        && 0 <= place < files@.len() && file_id@ == files@[place].file_id@
                        && request_is(
                        request,
                        self.api_url@ + "/b2api/v2/"@ + "b2_delete_file_version"@,
                        seq![("Authorization"@, auth_token@)],
                    ),
                    None => action matches DeleteAction::Reply(Err(error)) && error
                        == AppError::ServerError,
                },
                DeleteEvent::Listed { auth_token, files: None } => action
                    matches DeleteAction::Reply(Err(error)) && error == AppError::ServerError,
                DeleteEvent::Deleted { success } => action matches DeleteAction::Reply(r) && r
                    == if success {
                    Ok::<(), AppError>(())
                } else {
                    Err(AppError::ServerError)
                },
            },
    {
        match event {
            DeleteEvent::Requested { auth_token } => DeleteAction::List(
                Request {
                    url: api_address(self.api_url.as_str(), "b2_list_file_names"),
                    headers: one_header("Authorization", auth_token.as_str()),
                },
            ),
            DeleteEvent::Listed { auth_token, files: Some(files) } => {
                match find_file(&files, filename) {
                    Some(place) => DeleteAction::Delete {
                        request: Request {
                            url: api_address(self.api_url.as_str(), "b2_delete_file_version"),
                            headers: one_header("Authorization", auth_token.as_str()),
                        },
                        file_id: files[place].file_id.clone(),
                    },
                    None => DeleteAction::Reply(Err(AppError::ServerError)),
                }
            },
            DeleteEvent::Listed { auth_token: _, files: None } => DeleteAction::Reply(
                Err(AppError::ServerError),
            ),
            DeleteEvent::Deleted { success } => {
                if success {
                    DeleteAction::Reply(Ok(()))
                } else {
                    DeleteAction::Reply(Err(AppError::ServerError))
                }
            },
        }
    }
}

/// The first file of a name in the beginning of a list is the first one in
/// the whole list.
proof fn lemma_first_named(files: Seq<FileInfo>, name: Seq<char>, upto: int)
    requires
        0 <= upto <= files.len(),
        first_named(files.take(upto), name) is Some,
    ensures
        first_named(files, name) == first_named(files.take(upto), name),
    decreases files.len(),
{
    if upto == files.len() {
        assert(files.take(upto) =~= files);
    } else {
        assert(files.drop_last().take(upto) =~= files.take(upto));
        lemma_first_named(files.drop_last(), name, upto);
    }
}

} // verus!
