//! Base64url spellings of UUID values.

use vstd::prelude::*;

use crate::codec::{
    b64url_nopad_encode, b64url_nopad_encoded, b64url_pad_decode, b64url_pad_decoded,
    b64url_pad_encode, b64url_pad_encoded, uuid_format_hyphenated, uuid_hyphenated, uuid_parsed,
};
use crate::exceptions::JwtError;

verus! {

/// A UUID held as its sixteen bytes.
#[derive(Debug)]
pub struct UuidValue {
    pub bytes: Vec<u8>,
}

impl UuidValue {
    /// The invariant every constructor of this type establishes: a UUID is
    /// exactly sixteen bytes.
    pub open spec fn wf(&self) -> bool {
        self.bytes@.len() == 16
    }

    /// The canonical hyphenated spelling of this UUID. Parsing the result
    /// yields the same sixteen bytes.
    pub fn hyphenated(&self) -> (r: String)
        requires
            self.wf(),
        ensures
            r@ == uuid_hyphenated(self.bytes@),
            uuid_parsed(r@) == Some(self.bytes@),
    {
        uuid_format_hyphenated(&self.bytes)
    }
}

/// The padded base64url spelling of a UUID's bytes. Decoding the result
/// yields the same sixteen bytes back.
pub fn b64_encode_uuid(uuid: &UuidValue) -> (r: String)
    ensures
        r@ == b64url_pad_encoded(uuid.bytes@),
        b64url_pad_decoded(r@) == Some(uuid.bytes@),
{
    b64url_pad_encode(uuid.bytes.as_slice())
}

/// The base64url spelling of a UUID's bytes without the trailing padding:
/// twenty-two characters for sixteen bytes, none of them `=`.
pub fn b64_encode_uuid_strip(uuid: &UuidValue) -> (r: String)
    ensures
        r@ == b64url_nopad_encoded(uuid.bytes@),
        uuid.wf() ==> r@.len() == 22,
        forall|i: int| 0 <= i < r@.len() ==> r@[i] != '=',
{
    b64url_nopad_encode(uuid.bytes.as_slice())
}

/// Reads a padded base64url spelling back into a UUID. Text that is not
/// padded base64url, or that decodes to anything but sixteen bytes, is
/// rejected with a `DecodingError`.
pub fn b64_decode_uuid(encoded: &str) -> (r: Result<UuidValue, JwtError>)
    ensures
        match b64url_pad_decoded(encoded@) {
            Some(b) => {
                if b.len() == 16 {
                    r matches Ok(u) && u.bytes@ == b && u.wf()
                } else {
                    r matches Err(e) && e is DecodingError
                }
            },
            None => r matches Err(e) && e is DecodingError,
        },
{
    match b64url_pad_decode(encoded) {
        Some(bytes) => {
            if bytes.len() == 16 {
                Ok(UuidValue { bytes })
            } else {
                Err(JwtError::DecodingError("decoded text is not a UUID".to_owned()))
            }
        },
        None => Err(JwtError::DecodingError("failed to decode base64".to_owned())),
    }
}

} // verus!
