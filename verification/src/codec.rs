//! Trusted byte-level codecs: base64url encoding and decoding, and the
//! textual form of a UUID.
//!
//! Each function here wraps a single conversion of an outside crate. The
//! conversions are functions of their input alone, so each result is given a
//! name that the callers' contracts are stated over.

use vstd::prelude::*;

verus! {

/// What base64url decoding without padding returns on given bytes: `None` on
/// input that is not base64url, otherwise the decoded bytes.
pub uninterp spec fn b64url_nopad_decoded(s: Seq<u8>) -> Option<Seq<u8>>;

/// Relies on base64's `URL_SAFE_NO_PAD` engine: decoding is a function of the
/// input alone and fails exactly on text that is not unpadded base64url.
#[verifier::external_body]
pub(crate) fn b64url_nopad_decode(s: &[u8]) -> (r: Option<Vec<u8>>)
    ensures
        r.deep_view() == b64url_nopad_decoded(s@),
{
    base64::Engine::decode(&base64::engine::general_purpose::URL_SAFE_NO_PAD, s).ok()
}

/// What padded base64url encoding returns on given bytes.
pub uninterp spec fn b64url_pad_encoded(b: Seq<u8>) -> Seq<char>;

/// What padded base64url decoding returns on a given string: `None` on text
/// that is not padded base64url, otherwise the decoded bytes.
pub uninterp spec fn b64url_pad_decoded(s: Seq<char>) -> Option<Seq<u8>>;

/// Relies on base64's `URL_SAFE` engine: encoding is a function of the input
/// alone, and the same engine's decode inverts it.
#[verifier::external_body]
pub(crate) fn b64url_pad_encode(b: &[u8]) -> (r: String)
    ensures
        r@ == b64url_pad_encoded(b@),
        b64url_pad_decoded(r@) == Some(b@),
{
    base64::Engine::encode(&base64::engine::general_purpose::URL_SAFE, b)
}

/// Relies on base64's `URL_SAFE` engine: decoding is a function of the input
/// alone and fails exactly on text that is not padded base64url.
#[verifier::external_body]
pub(crate) fn b64url_pad_decode(s: &str) -> (r: Option<Vec<u8>>)
    ensures
        r.deep_view() == b64url_pad_decoded(s@),
{
    base64::Engine::decode(&base64::engine::general_purpose::URL_SAFE, s).ok()
}

/// What unpadded base64url encoding returns on given bytes.
pub uninterp spec fn b64url_nopad_encoded(b: Seq<u8>) -> Seq<char>;

/// Relies on base64's `URL_SAFE_NO_PAD` engine: encoding is a function of the
/// input alone; it equals the padded form with the trailing `=` removed. The
/// output takes four characters for every three input bytes, rounded up, and
/// the url-safe alphabet without padding never contains `=`.
#[verifier::external_body]
pub(crate) fn b64url_nopad_encode(b: &[u8]) -> (r: String)
    ensures
        r@ == b64url_nopad_encoded(b@),
        r@.len() == (b@.len() * 4 + 2) / 3,
        forall|i: int| 0 <= i < r@.len() ==> r@[i] != '=',
{
    base64::Engine::encode(&base64::engine::general_purpose::URL_SAFE_NO_PAD, b)
}

/// What parsing a UUID string returns: `None` on text that is not a UUID in
/// any of the accepted spellings (hyphenated, simple, urn, braced), otherwise
/// the sixteen bytes.
pub uninterp spec fn uuid_parsed(s: Seq<char>) -> Option<Seq<u8>>;

/// The canonical hyphenated spelling of sixteen UUID bytes.
pub uninterp spec fn uuid_hyphenated(b: Seq<u8>) -> Seq<char>;

/// Relies on `uuid::Uuid::parse_str` and `Uuid::into_bytes`: parsing is a
/// function of the text alone; a parsed UUID is exactly sixteen bytes.
#[verifier::external_body]
pub(crate) fn uuid_parse_bytes(s: &str) -> (r: Option<Vec<u8>>)
    ensures
        r.deep_view() == uuid_parsed(s@),
        r matches Some(v) ==> v@.len() == 16,
{
    uuid::Uuid::parse_str(s).ok().map(|u| u.into_bytes().to_vec())
}

/// Relies on `uuid::Uuid::from_slice` and the crate's `Display`: formatting
/// sixteen bytes is a function of the bytes alone, and `Uuid::parse_str`
/// accepts the hyphenated spelling and returns the same bytes.
#[verifier::external_body]
pub(crate) fn uuid_format_hyphenated(b: &Vec<u8>) -> (r: String)
    requires
        b@.len() == 16,
    ensures
        r@ == uuid_hyphenated(b@),
        uuid_parsed(r@) == Some(b@),
{
    format!("{}", uuid::Uuid::from_slice(b).unwrap())
}

} // verus!
