//! Encodings that the service shares with other services.

use base64::Engine;
use sha1::Digest;
use vstd::prelude::*;

verus! {

/// The longest input that is encoded: a gigabyte.
pub const ENCODE_LIMIT: usize = 0x4000_0000;

/// Bytes in base64 with the standard alphabet and padding.
pub uninterp spec fn base64_standard(data: Seq<u8>) -> Seq<char>;

/// The bytes that a text stands for in base64 with the URL-safe alphabet and
/// without padding, if it stands for any.
pub uninterp spec fn base64_url_decoded(text: Seq<char>) -> Option<Seq<u8>>;

/// The SHA-1 digest of some bytes in lowercase hexadecimal digits.
pub uninterp spec fn sha1_hex(data: Seq<u8>) -> Seq<char>;

/// A text with everything but letters, digits, `-`, `_`, `.` and `~`
/// percent-encoded.
pub uninterp spec fn percent_encoded(text: Seq<char>) -> Seq<char>;

/// The bytes of an optional buffer.
pub open spec fn bytes_of(data: Option<Vec<u8>>) -> Option<Seq<u8>> {
    match data {
        Some(bytes) => Some(bytes@),
        None => None,
    }
}

/// `Engine::encode` of the `STANDARD` engine.
#[verifier::external_body]
pub(crate) fn encode_standard(data: &[u8]) -> (r: String)
    requires
        data@.len() <= ENCODE_LIMIT,
    ensures
        r@ == base64_standard(data@),
{
    base64::engine::general_purpose::STANDARD.encode(data)
}

/// `Engine::decode` of the `URL_SAFE_NO_PAD` engine; nothing where the text
/// is no such encoding.
#[verifier::external_body]
pub(crate) fn decode_url_safe(text: &str) -> (r: Option<Vec<u8>>)
    ensures
        bytes_of(r) == base64_url_decoded(text@),
{
    match base64::prelude::BASE64_URL_SAFE_NO_PAD.decode(text) {
        Ok(bytes) => Some(bytes),
        Err(_) => None,
    }
}

/// `Sha1::digest`, written in lowercase hexadecimal digits.
#[verifier::external_body]
pub(crate) fn digest_hex(data: &[u8]) -> (r: String)
    ensures
        r@ == sha1_hex(data@),
{
    format!("{:x}", sha1::Sha1::digest(data))
}

/// `urlencoding::encode`.
#[verifier::external_body]
pub(crate) fn percent_encode(text: &str) -> (r: String)
    ensures
        r@ == percent_encoded(text@),
{
    urlencoding::encode(text).into_owned()
}

} // verus!
