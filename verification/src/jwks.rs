//! The JWKS fetcher's verified half, and the set-once key-set cache.
//!
//! The HTTP exchange itself is unverified input/output and lives outside the
//! library; what arrives — a status code and a body — is validated here:
//! the status must be 2xx, the body must parse as a JWKS document, and the
//! key list must not be empty. The cache is a single slot that is written at
//! most once and never overwritten.

use vstd::prelude::*;

use crate::exceptions::JwksError;
use crate::json::{json_parsed, parse_json, spec_field, JsonValue};
use crate::schemas::{jwks_match, jwks_wf, Jwks};

verus! {

use vstd::string::StringSliceAdditionalSpecFns;

/// The fetched JWKS document lists at least one key.
pub open spec fn jwks_nonempty(doc: JsonValue) -> bool {
    match spec_field(doc, "keys"@) {
        Some(JsonValue::Arr(items)) => items@.len() > 0,
        _ => false,
    }
}

/// The HTTP status codes the fetcher accepts.
pub open spec fn http_ok(status: u16) -> bool {
    200 <= status < 300
}

/// A set-once slot for a fetched key set.
///
/// The slot starts empty, is filled at most once, and is never overwritten:
/// a second initialization fails and leaves the first value in place.
#[derive(Debug)]
pub struct JwksCache {
    slot: Option<Jwks>,
}

impl JwksCache {
    /// The key set held, if the cache was initialized.
    pub closed spec fn cached(&self) -> Option<Jwks> {
        self.slot
    }

    /// Whether the cache was initialized.
    pub open spec fn is_initialized(&self) -> bool {
        self.cached() is Some
    }

    /// An empty cache.
    pub fn new() -> (r: Self)
        ensures
            !r.is_initialized(),
    {
        JwksCache { slot: None }
    }

    /// Fills the slot, once. A second call fails with `InvalidJwksData` and
    /// does not replace the first value.
    pub fn set_once(&mut self, jwks: Jwks) -> (r: Result<(), JwksError>)
        ensures
            old(self).is_initialized() ==> *final(self) == *old(self) && (r matches Err(e)
                && e is InvalidJwksData),
            !old(self).is_initialized() ==> final(self).cached() == Some(jwks) && r is Ok,
    {
        if self.slot.is_some() {
            Err(JwksError::InvalidJwksData("cache already set".to_owned()))
        } else {
            self.slot = Some(jwks);
            Ok(())
        }
    }
}

/// Reads the cached key set; fails with `NotInitialized` exactly when no
/// initialization has succeeded yet.
pub fn get_jwk_keys<'a>(cache: &'a JwksCache) -> (r: Result<&'a Jwks, JwksError>)
    ensures
        match r {
            Ok(ks) => cache.cached() == Some(*ks),
            Err(e) => e is NotInitialized && !cache.is_initialized(),
        },
{
    match cache.as_slot() {
        Some(ks) => Ok(ks),
        None => Err(JwksError::NotInitialized),
    }
}

impl JwksCache {
    /// A borrow of the slot.
    fn as_slot<'a>(&'a self) -> (r: Option<&'a Jwks>)
        ensures
            match r {
                Some(ks) => self.cached() == Some(*ks),
                None => !self.is_initialized(),
            },
    {
        self.slot.as_ref()
    }
}

/// The verified half of a JWKS fetch: validates the HTTP status, parses the
/// body, and rejects a document without keys.
///
/// A non-2xx status fails with `HttpError`; a body that is not JSON, does not
/// have the JWKS shape, or lists no keys fails with `InvalidJwksData`; what
/// remains is returned as the key set, exactly the keys of the document in
/// order.
pub fn jwks_from_response(status: u16, body: &str) -> (r: Result<Jwks, JwksError>)
    ensures
        !http_ok(status) ==> r == Err::<Jwks, JwksError>(JwksError::HttpError(status)),
        (http_ok(status) && json_parsed(body.spec_bytes()) is None) ==> (r matches Err(e)
            && e is InvalidJwksData),
        (http_ok(status) && (json_parsed(body.spec_bytes()) matches Some(doc) && !(jwks_wf(doc)
            && jwks_nonempty(doc)))) ==> (r matches Err(e) && e is InvalidJwksData),
        r matches Ok(ks) ==> http_ok(status) && (json_parsed(body.spec_bytes()) matches Some(doc)
            && jwks_wf(doc) && jwks_nonempty(doc) && jwks_match(doc, ks)) && ks.keys@.len() > 0,
        (http_ok(status) && (json_parsed(body.spec_bytes()) matches Some(doc) && jwks_wf(doc)
            && jwks_nonempty(doc))) ==> r is Ok,
{
    if !(200 <= status && status < 300) {
        return Err(JwksError::HttpError(status));
    }
    let doc = match parse_json(body.as_bytes()) {
        Some(d) => d,
        None => {
            return Err(JwksError::InvalidJwksData("body is not JSON".to_owned()));
        },
    };
    let jwks = match Jwks::from_json(&doc) {
        Some(ks) => ks,
        None => {
            return Err(JwksError::InvalidJwksData("body is not a JWKS document".to_owned()));
        },
    };
    if jwks.keys.len() == 0 {
        return Err(JwksError::InvalidJwksData("no keys found in JWKS".to_owned()));
    }
    Ok(jwks)
}

/// Validates a fetched JWKS response and stores the key set into the cache,
/// once.
///
/// An invalid response surfaces its own error and leaves the cache untouched;
/// a second successful fetch fails with `InvalidJwksData` and does not
/// replace the first key set.
pub fn init_jwks_sync(cache: &mut JwksCache, status: u16, body: &str) -> (r: Result<
    (),
    JwksError,
>)
    ensures
        r is Err ==> *final(cache) == *old(cache),
        !http_ok(status) ==> r == Err::<(), JwksError>(JwksError::HttpError(status)),
        old(cache).is_initialized() ==> r is Err,
        r is Ok ==> !old(cache).is_initialized() && (final(cache).cached() matches Some(ks)
            && json_parsed(body.spec_bytes()) matches Some(doc) && jwks_wf(doc) && jwks_match(
            doc,
            ks,
        ) && ks.keys@.len() > 0),
        (!old(cache).is_initialized() && http_ok(status) && (json_parsed(
            body.spec_bytes(),
        ) matches Some(doc) && jwks_wf(doc) && jwks_nonempty(doc))) ==> r is Ok,
        (old(cache).is_initialized() && http_ok(status) && (json_parsed(
            body.spec_bytes(),
        ) matches Some(doc) && jwks_wf(doc) && jwks_nonempty(doc))) ==> (r matches Err(e)
            && e is InvalidJwksData),
{
    let jwks = match jwks_from_response(status, body) {
        Ok(ks) => ks,
        Err(e) => {
            return Err(e);
        },
    };
    match cache.set_once(jwks) {
        Ok(()) => Ok(()),
        Err(e) => Err(e),
    }
}

} // verus!
