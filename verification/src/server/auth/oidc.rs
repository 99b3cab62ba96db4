//! Signing in through an OpenID Connect provider.

use crate::applications::post_oidc::connected_entry;
use crate::applications::record::{ClientSocket, OAuthProvider, OidcInfo, OidcInfoView};
use crate::applications::registration::start_step;
use crate::db::Db;
use crate::encoding::{base64_url_decoded, decode_url_safe};
use crate::error::AppError;
use crate::strings::{pair, pairs, same_text, split, split_text, texts};
use vstd::prelude::*;
use vstd::string::StringExecFns;

verus! {

#[derive(Clone, Debug, PartialEq)]
pub struct ProviderQuery {
    pub by: String,
}

#[derive(Clone, Debug, PartialEq)]
pub struct ProviderRedirect {
    pub authorization_code: String,
    pub csrf_state: String,
}

/// What a provider tells of a user.
#[derive(Clone, Debug, PartialEq)]
pub struct UserInfo {
    pub sub: String,
    pub name: String,
    pub picture: String,
    pub email: String,
}

/// The claims of an ID token.
#[derive(Clone, Debug, PartialEq)]
pub struct IdTokenClaims {
    pub userinfo: UserInfo,
    pub iss: String,
    pub aud: String,
    pub iat: u64,
    pub exp: u64,
    pub nonce: Option<String>,
}

/// What the service knows of a provider that it can sign in through.
#[derive(Clone, Debug, PartialEq)]
pub struct ProviderConfig {
    pub provider: OAuthProvider,
    pub client_id: String,
    pub client_secret: String,
    pub scopes: String,
}

/// The address that a provider sends the user back to.
pub open spec fn callback_address(domain: Seq<char>) -> Seq<char> {
    domain + "/api/oauth2/callback"@
}

/// What the service asks a provider for when it sends a user there.
pub open spec fn authorization_pairs(
    client_id: Seq<char>,
    domain: Seq<char>,
    scopes: Seq<char>,
    csrf_state: Seq<char>,
    nonce: Seq<char>,
    code_challenge: Seq<char>,
) -> Seq<(Seq<char>, Seq<char>)> {
    seq![
        ("client_id"@, client_id),
        ("redirect_uri"@, callback_address(domain)),
        ("response_type"@, "code"@),
        ("scope"@, scopes),
        ("state"@, csrf_state),
        ("nonce"@, nonce),
        ("code_challenge"@, code_challenge),
        ("code_challenge_method"@, "S256"@),
    ]
}

/// What the service sends a provider to exchange a code for tokens.
pub open spec fn token_pairs(
    client_id: Seq<char>,
    client_secret: Seq<char>,
    code: Seq<char>,
    domain: Seq<char>,
    code_verifier: Seq<char>,
) -> Seq<(Seq<char>, Seq<char>)> {
    seq![
        ("client_id"@, client_id),
        ("client_secret"@, client_secret),
        ("code"@, code),
        ("redirect_uri"@, callback_address(domain)),
        ("grant_type"@, "authorization_code"@),
        ("code_verifier"@, code_verifier),
    ]
}

/// The address that a provider sends the user back to.
pub fn redirect_uri(domain: &str) -> (r: String)
    ensures
        r@ == callback_address(domain@),
{
    let mut uri = domain.to_owned();
    uri.append("/api/oauth2/callback");
    uri
}

/// Starts a sign-in through a provider: records the attempt under its CSRF
/// state and lists what the authorization request carries. A provider that
/// the service does not know is an `InvalidOAuthProvider`, and nothing is
/// recorded.
pub fn login(
    db: &mut Db,
    conn_info: ClientSocket,
    config: Option<&ProviderConfig>,
    csrf_state: String,
    nonce: String,
    code_verifier: String,
    code_challenge: &str,
    domain: &str,
) -> (r: Result<Vec<(String, String)>, AppError>)
    requires
        old(db).wf(),
    ensures
        final(db).wf(),
        match config {
            None => r matches Err(error) && error == AppError::InvalidOAuthProvider && final(db)@
                == old(db)@,
            Some(config) => {
                &&& r matches Ok(query) && pairs(query@) == authorization_pairs(
                    config.client_id@,
                    domain@,
                    config.scopes@,
                    csrf_state@,
                    nonce@,
                    code_challenge@,
                )
                &&& final(db)@ == old(db)@.with_attempt(
                    csrf_state@,
                    OidcInfoView {
                        socket_addr: conn_info@,
                        code_verifier: code_verifier@,
                        nonce: nonce@,
                        provider: config.provider,
                    },
                )
            },
        },
{
    let config = match config {
        Some(config) => config,
        None => {
            return Err(AppError::InvalidOAuthProvider);
        },
    };
    let uri = redirect_uri(domain);
    let mut query: Vec<(String, String)> = Vec::new();
    query.push(pair("client_id", config.client_id.as_str()));
    query.push(pair("redirect_uri", uri.as_str()));
    query.push(pair("response_type", "code"));
    query.push(pair("scope", config.scopes.as_str()));
    query.push(pair("state", csrf_state.as_str()));
    query.push(pair("nonce", nonce.as_str()));
    query.push(pair("code_challenge", code_challenge));
    query.push(pair("code_challenge_method", "S256"));
    proof {
        assert(pairs(query@) =~= authorization_pairs(
            config.client_id@,
            domain@,
            config.scopes@,
            csrf_state@,
            nonce@,
            code_challenge@,
        ));
    }
    db.add_oidc_info(conn_info, csrf_state, code_verifier, nonce, config.provider);
    Ok(query)
}

/// Decides on a callback from what the store handed out for its CSRF state:
/// with an attempt the callback goes on; without one the state did not
/// match.
pub fn attempt_found(found: Option<OidcInfo>) -> (r: Result<OidcInfo, AppError>)
    ensures
        match found {
            Some(info) => r == Ok::<OidcInfo, AppError>(info),
            None => r == Err::<OidcInfo, AppError>(AppError::BadReq("CSRF state didn't match")),
        },
{
    match found {
        Some(info) => Ok(info),
        None => Err(AppError::BadReq("CSRF state didn't match")),
    }
}

/// Finds the attempt that a callback belongs to. A state that the store
/// does not hand out is a `BadReq`.
pub fn find_attempt(db: &Db, q: &ProviderRedirect) -> (r: Result<OidcInfo, AppError>)
    ensures
        match r {
            Ok(info) => db@.attempt(q.csrf_state@) == Some(info@),
            Err(error) => error == AppError::BadReq("CSRF state didn't match"),
        },
{
    attempt_found(db.get_oidc_info(q.csrf_state.as_str()))
}

/// Lists what the exchange of an authorization code for tokens carries.
pub fn token_form(config: &ProviderConfig, q: &ProviderRedirect, info: &OidcInfo, domain: &str) -> (r: Vec<
    (String, String),
>)
    ensures
        pairs(r@) == token_pairs(
            config.client_id@,
            config.client_secret@,
            q.authorization_code@,
            domain@,
            info.code_verifier@,
        ),
{
    let uri = redirect_uri(domain);
    let mut form: Vec<(String, String)> = Vec::new();
    form.push(pair("client_id", config.client_id.as_str()));
    form.push(pair("client_secret", config.client_secret.as_str()));
    form.push(pair("code", q.authorization_code.as_str()));
    form.push(pair("redirect_uri", uri.as_str()));
    form.push(pair("grant_type", "authorization_code"));
    form.push(pair("code_verifier", info.code_verifier.as_str()));
    proof {
        assert(pairs(form@) =~= token_pairs(
            config.client_id@,
            config.client_secret@,
            q.authorization_code@,
            domain@,
            info.code_verifier@,
        ));
    }
    form
}

/// The bytes of the payload of a token: the second of its three parts,
/// decoded. A token of another shape, or a payload that is no base64, has
/// none.
pub open spec fn payload_of(token: Seq<char>) -> Option<Seq<u8>> {
    let parts = split(token, '.');
    if parts.len() == 3 {
        base64_url_decoded(parts[1])
    } else {
        None
    }
}

/// Decides on the payload of a token from what decoding its second part
/// gave.
pub fn payload_decoded(decoded: Option<Vec<u8>>) -> (r: Result<Vec<u8>, AppError>)
    ensures
        match decoded {
            Some(bytes) => r == Ok::<Vec<u8>, AppError>(bytes),
            None => r == Err::<Vec<u8>, AppError>(AppError::ServerError),
        },
{
    match decoded {
        Some(bytes) => Ok(bytes),
        None => Err(AppError::ServerError),
    }
}

/// Takes the payload out of an ID token. The signature is not looked at.
pub fn token_payload(token: &str) -> (r: Result<Vec<u8>, AppError>)
    ensures
        match payload_of(token@) {
            Some(bytes) => r matches Ok(payload) && payload@ == bytes,
            None => r matches Err(error) && error == AppError::ServerError,
        },
{
    let parts = split_text(token, '.');
    if parts.len() != 3 {
        return Err(AppError::ServerError);
    }
    assert(texts(parts@)[1] == parts@[1]@);
    payload_decoded(decode_url_safe(parts[1].as_str()))
}

/// Whether claims are meant for this client and answer this attempt.
pub open spec fn claims_fit(claims: IdTokenClaims, audience: Seq<char>, nonce: Seq<char>) -> bool {
    claims.aud@ == audience && (claims.nonce matches Some(given) && given@ == nonce)
}

/// Checks the claims of an ID token: the audience is the client, and the
/// nonce is the one of the attempt. Claims without a nonce do not pass.
pub fn check_claims(claims: IdTokenClaims, expected_audience: &str, expected_nonce: &str) -> (r: Result<
    IdTokenClaims,
    AppError,
>)
    ensures
        r == if claims_fit(claims, expected_audience@, expected_nonce@) {
            Ok::<IdTokenClaims, AppError>(claims)
        } else {
            Err(AppError::ServerError)
        },
{
    if !same_text(claims.aud.as_str(), expected_audience) {
        return Err(AppError::ServerError);
    }
    let fits = match &claims.nonce {
        Some(given) => same_text(expected_nonce, given.as_str()),
        None => false,
    };
    if !fits {
        return Err(AppError::ServerError);
    }
    Ok(claims)
}

/// What the persistent store said of the email that a provider vouched
/// for.
#[derive(Debug, PartialEq)]
pub enum UserLookup {
    /// An account has the email; this is how it signs in.
    Found { oauth_provider: OAuthProvider },
    /// No account has the email.
    NotFound,
    /// The store failed.
    Failed(AppError),
}

/// How a callback ends.
#[derive(Clone, Copy, PartialEq, Eq, Debug, Structural)]
pub enum CallbackOutcome {
    /// The user has an account that signs in through a provider: open a
    /// session, forget the attempt, and send the user home.
    SignIn,
    /// A registration was started for the user: send the user to the
    /// sign-in page to finish it.
    Register,
}

/// Ends a callback once the user is known. An account that signs in with a
/// password is not linked here; an account that signs in through a provider
/// is signed in; a user without an account gets a pending registration, and
/// the attempt is forgotten.
pub fn callback(
    db: &mut Db,
    conn_info: ClientSocket,
    q: &ProviderRedirect,
    info: &OidcInfo,
    user_info: UserInfo,
    lookup: UserLookup,
) -> (r: Result<CallbackOutcome, AppError>)
    requires
        old(db).wf(),
    ensures
        final(db).wf(),
        match lookup {
            UserLookup::Found { oauth_provider } => final(db)@ == old(db)@ && r
                == if oauth_provider == OAuthProvider::NoProvider {
                Err::<CallbackOutcome, AppError>(
                    AppError::BadReq(
                        "Your account with this email already exists. Please login to link your account.",
                    ),
                )
            } else {
                Ok(CallbackOutcome::SignIn)
            },
            UserLookup::Failed(error) => final(db)@ == old(db)@ && r == Err::<
                CallbackOutcome,
                AppError,
            >(error),
            UserLookup::NotFound => {
                let entry = connected_entry(
                    conn_info@,
                    user_info.name@,
                    user_info.picture@,
                    info.provider,
                );
                match r {
                    Ok(outcome) => outcome == CallbackOutcome::Register && final(db)@
                        == start_step(
                        old(db)@,
                        user_info.email@,
                        entry,
                        false,
                        false,
                    ).0.without_attempt(q.csrf_state@),
                    Err(error) => error == AppError::EmailTaken && final(db)@ == old(db)@ && old(
                        db,
                    )@.registrants.contains_key(user_info.email@),
                }
            },
        },
{
    match lookup {
        UserLookup::Found { oauth_provider } => match oauth_provider {
            OAuthProvider::NoProvider => Err(
                AppError::BadReq(
                    "Your account with this email already exists. Please login to link your account.",
                ),
            ),
            _ => Ok(CallbackOutcome::SignIn),
        },
        UserLookup::NotFound => {
            match db.create_registrant_oidc(
                conn_info,
                user_info.name,
                user_info.email,
                user_info.picture,
                info.provider,
                false,
            ) {
                Ok(()) => {},
                Err(error) => {
                    return Err(error);
                },
            }
            db.remove_oidc_info(q.csrf_state.as_str());
            Ok(CallbackOutcome::Register)
        },
        UserLookup::Failed(error) => Err(error),
    }
}

} // verus!
