//! The token verifier and the configuration resolver.
//!
//! Verification composes verified logic — header parsing, the mandatory
//! algorithm allow-list check, claims materialization — around one trusted
//! call into the JWT library that checks the signature (and the library's own
//! validity rules, expiry among them). The signature check's outcome depends
//! on the clock, so nothing is promised of it; what a successful verification
//! returns is pinned exactly: the claims of the token's own payload.

use vstd::prelude::*;

use crate::exceptions::{JwksError, USSOError};
use crate::json::{spec_field, spec_str_field, JsonValue};
use crate::jwks::{get_jwk_keys, JwksCache};
use crate::schemas::{
    claims_match, claims_wf, header_wf, spec_header_doc, spec_kid_missing, spec_kid_unknown,
    spec_payload_doc, token_payload_json, Jwk, Jwks, JwtHeader, JWTConfig, KeyBinding, UserData,
};

verus! {

use vstd::string::StringSliceAdditionalSpecFns;

/// A signing algorithm this library can be told to accept.
#[derive(Debug, Clone, Copy, PartialEq, Eq, Structural)]
pub enum Algorithm {
    RS256,
    HS256,
}

impl Algorithm {
    /// The algorithm's name as it appears in a token header.
    pub open spec fn spec_name(self) -> Seq<char> {
        match self {
            Algorithm::RS256 => "RS256"@,
            Algorithm::HS256 => "HS256"@,
        }
    }

    /// The algorithm's name as it appears in a token header.
    pub fn name(&self) -> (r: &'static str)
        ensures
            r@ == self.spec_name(),
    {
        match self {
            Algorithm::RS256 => "RS256",
            Algorithm::HS256 => "HS256",
        }
    }
}

/// The declared algorithm `alg` is on the allow-list `algorithms`.
pub open spec fn spec_alg_allowed(alg: Seq<char>, algorithms: Seq<Algorithm>) -> bool {
    exists|i: int| 0 <= i < algorithms.len() && (#[trigger] algorithms[i]).spec_name() == alg
}

/// Decides the allow-list check of [`spec_alg_allowed`].
fn alg_allowed(alg: &str, algorithms: &[Algorithm]) -> (r: bool)
    ensures
        r == spec_alg_allowed(alg@, algorithms@),
{
    let n = algorithms.len();
    let mut i: usize = 0;
    while i < n
        invariant
            n == algorithms@.len(),
            i <= n,
            forall|k: int| 0 <= k < i ==> (#[trigger] algorithms@[k]).spec_name() != alg@,
        decreases n - i,
    {
        if crate::json::str_eq(alg, algorithms[i].name()) {
            return true;
        }
        i = i + 1;
    }
    false
}

/// Relies on `jsonwebtoken::decode` with a key built by
/// `DecodingKey::from_rsa_components` and `Validation::new(RS256)`: true
/// exactly when the library accepts the token under that key — signature,
/// algorithm and its own expiry rule included. The expiry rule reads the
/// clock, so no outcome is promised.
#[verifier::external_body]
fn rsa_checks_pass(n: &str, e: &str, token: &str) -> bool {
    let key = match jsonwebtoken::DecodingKey::from_rsa_components(n, e) {
        Ok(k) => k,
        Err(_) => return false,
    };
    let validation = jsonwebtoken::Validation::new(jsonwebtoken::Algorithm::RS256);
    jsonwebtoken::decode::<serde_json::Value>(token, &key, &validation).is_ok()
}

/// Relies on `jsonwebtoken::decode` with a key built by
/// `DecodingKey::from_secret` and `Validation::new(HS256)`: true exactly when
/// the library accepts the token under that secret — signature, algorithm and
/// its own expiry rule included. The expiry rule reads the clock, so no
/// outcome is promised.
#[verifier::external_body]
fn hmac_checks_pass(secret: &[u8], token: &str) -> bool {
    let key = jsonwebtoken::DecodingKey::from_secret(secret);
    let validation = jsonwebtoken::Validation::new(jsonwebtoken::Algorithm::HS256);
    jsonwebtoken::decode::<serde_json::Value>(token, &key, &validation).is_ok()
}

/// Relies on `std::time::SystemTime::now`, read as whole seconds since the
/// Unix epoch. The result depends on the clock, so only its sign is promised.
#[verifier::external_body]
fn now_unix_seconds() -> (r: i64)
    ensures
        r >= 0,
{
    match std::time::SystemTime::now().duration_since(std::time::UNIX_EPOCH) {
        Ok(d) => i64::try_from(d.as_secs()).unwrap_or(i64::MAX),
        Err(_) => 0,
    }
}

/// The token's header parses and has the header shape.
pub open spec fn spec_header_ok(token: Seq<u8>) -> bool {
    spec_header_doc(token) matches Some(doc) && header_wf(doc)
}

/// What a successful verification must return: the claims of the token's own
/// payload, materialized from its JSON document.
pub open spec fn spec_claims_of_token(token: Seq<u8>, u: UserData) -> bool {
    spec_payload_doc(token) matches Some(doc) && claims_wf(doc) && claims_match(doc, u)
}

/// The token's declared algorithm, when the header is well-formed.
pub open spec fn spec_token_alg(token: Seq<u8>) -> Option<Seq<char>> {
    match spec_header_doc(token) {
        Some(doc) => spec_str_field(doc, "alg"@),
        None => None,
    }
}

/// The token's header declares the algorithm named `name`.
pub open spec fn spec_alg_declared(token: Seq<u8>, name: Seq<char>) -> bool {
    spec_token_alg(token) matches Some(a) && a == name
}

/// A one-entry allow-list admits only its entry's name.
pub proof fn lemma_single_alg_allowed(a: Seq<char>, algorithms: Seq<Algorithm>)
    requires
        algorithms.len() == 1,
        algorithms[0].spec_name() != a,
    ensures
        !spec_alg_allowed(a, algorithms),
{
}

/// Verifies a token against one asymmetric key.
///
/// The declared algorithm must be on the allow-list — a mandatory check, made
/// before any cryptography. The signature check is the trusted JWT library's;
/// on success the claims are materialized from the token's payload, and every
/// failure is collapsed into `InvalidToken`.
pub fn decode_token(key: &Jwk, token: &str, algorithms: &[Algorithm]) -> (r: Result<
    UserData,
    USSOError,
>)
    ensures
        r matches Err(e) ==> e is InvalidToken,
        r matches Ok(u) ==> spec_claims_of_token(token.spec_bytes(), u),
        !spec_header_ok(token.spec_bytes()) ==> r == Err::<UserData, USSOError>(USSOError::InvalidToken),
        (spec_token_alg(token.spec_bytes()) matches Some(a) && !spec_alg_allowed(
            a,
            algorithms@,
        )) ==> r == Err::<UserData, USSOError>(USSOError::InvalidToken),
{
    let header = match JwtHeader::from_token(token) {
        Ok(h) => h,
        Err(_) => {
            return Err(USSOError::InvalidToken);
        },
    };
    if !alg_allowed(header.alg.as_str(), algorithms) {
        return Err(USSOError::InvalidToken);
    }
    if !rsa_checks_pass(key.n.as_str(), key.e.as_str(), token) {
        return Err(USSOError::InvalidToken);
    }
    let doc = match token_payload_json(token) {
        Some(d) => d,
        None => {
            return Err(USSOError::InvalidToken);
        },
    };
    match UserData::from_json(doc) {
        Some(u) => Ok(u),
        None => Err(USSOError::InvalidToken),
    }
}

/// Verifies a token against a fixed symmetric secret, under the same
/// allow-list rule and failure policy as [`decode_token`].
pub fn verify_secret_token(secret: &str, token: &str, algorithms: &[Algorithm]) -> (r: Result<
    UserData,
    USSOError,
>)
    ensures
        r matches Err(e) ==> e is InvalidToken,
        r matches Ok(u) ==> spec_claims_of_token(token.spec_bytes(), u),
        !spec_header_ok(token.spec_bytes()) ==> r == Err::<UserData, USSOError>(USSOError::InvalidToken),
        (spec_token_alg(token.spec_bytes()) matches Some(a) && !spec_alg_allowed(
            a,
            algorithms@,
        )) ==> r == Err::<UserData, USSOError>(USSOError::InvalidToken),
{
    let header = match JwtHeader::from_token(token) {
        Ok(h) => h,
        Err(_) => {
            return Err(USSOError::InvalidToken);
        },
    };
    if !alg_allowed(header.alg.as_str(), algorithms) {
        return Err(USSOError::InvalidToken);
    }
    if !hmac_checks_pass(secret.as_bytes(), token) {
        return Err(USSOError::InvalidToken);
    }
    let doc = match token_payload_json(token) {
        Some(d) => d,
        None => {
            return Err(USSOError::InvalidToken);
        },
    };
    match UserData::from_json(doc) {
        Some(u) => Ok(u),
        None => Err(USSOError::InvalidToken),
    }
}

/// The `exp` claim of a payload document, when it is a whole number.
pub open spec fn spec_exp_claim(doc: JsonValue) -> Option<int> {
    match spec_field(doc, "exp"@) {
        Some(JsonValue::Int(e)) => Some(e as int),
        _ => None,
    }
}

/// A payload is expired at `now` when its `exp` lies strictly in the past; a
/// payload without a usable `exp` is treated as not expired (it defaults to
/// expiring a day after the check, which no present `now` reaches).
pub open spec fn spec_expired(doc: JsonValue, now: i64) -> bool {
    match spec_exp_claim(doc) {
        Some(e) => e < now,
        None => false,
    }
}

/// The advisory expiry check against a caller-supplied clock: the token's
/// payload is decoded without any signature verification, so this must never
/// stand in for an authorization decision.
///
/// The payload must decode to a JSON object, else `InvalidToken`.
pub fn is_expired_at(token: &str, now: i64) -> (r: Result<bool, USSOError>)
    ensures
        r is Ok <==> (spec_payload_doc(token.spec_bytes()) matches Some(doc) && doc is Obj),
        spec_payload_doc(token.spec_bytes()) matches Some(doc) ==> (doc is Obj ==> r == Ok::<
            bool,
            USSOError,
        >(spec_expired(doc, now))),
        r matches Err(e) ==> e is InvalidToken,
{
    let doc = match token_payload_json(token) {
        Some(d) => d,
        None => {
            return Err(USSOError::InvalidToken);
        },
    };
    match &doc {
        JsonValue::Obj(_) => {},
        _ => {
            return Err(USSOError::InvalidToken);
        },
    }
    let expired = match crate::json::json_field(&doc, "exp") {
        Some(JsonValue::Int(e)) => *e < now,
        _ => false,
    };
    Ok(expired)
}

/// The advisory expiry check against the machine's clock; see
/// [`is_expired_at`] for what is decided and how a missing `exp` is treated.
pub fn is_expired(token: &str) -> (r: Result<bool, USSOError>)
    ensures
        r is Ok <==> (spec_payload_doc(token.spec_bytes()) matches Some(doc) && doc is Obj),
        r matches Err(e) ==> e is InvalidToken,
{
    let now = now_unix_seconds();
    is_expired_at(token, now)
}

/// Verifies a token against the cached key set: the key id named by the
/// token's header is resolved in the cache, and the token is verified with
/// the resolved key under `RS256`.
pub fn decode_token_with_jwks(cache: &JwksCache, token: &str) -> (r: Result<UserData, USSOError>)
    ensures
        r matches Ok(u) ==> spec_claims_of_token(token.spec_bytes(), u),
        !cache.is_initialized() ==> (r matches Err(e) && e is Other),
        r matches Err(e) ==> (e is InvalidToken || e is Other),
        (cache.is_initialized() && !spec_header_ok(token.spec_bytes())) ==> r == Err::<
            UserData,
            USSOError,
        >(USSOError::InvalidToken),
        (cache.is_initialized() && spec_kid_missing(token.spec_bytes())) ==> r == Err::<
            UserData,
            USSOError,
        >(USSOError::InvalidToken),
        cache.cached() matches Some(ks) ==> (spec_kid_unknown(token.spec_bytes(), ks.keys@)
            ==> r == Err::<UserData, USSOError>(USSOError::InvalidToken)),
{
    let keys = match get_jwk_keys(cache) {
        Ok(ks) => ks,
        Err(_) => {
            return Err(USSOError::Other("JWKS cache is not initialized".to_owned()));
        },
    };
    let header = match JwtHeader::from_token(token) {
        Ok(h) => h,
        Err(_) => {
            return Err(USSOError::InvalidToken);
        },
    };
    let kid = match header.kid {
        Some(k) => k,
        None => {
            return Err(USSOError::InvalidToken);
        },
    };
    let key = match keys.match_kid(kid.as_str()) {
        Some(k) => k,
        None => {
            return Err(USSOError::InvalidToken);
        },
    };
    let algorithms = vec![Algorithm::RS256];
    decode_token(key, token, algorithms.as_slice())
}

/// The configuration resolver: an ordered, non-empty list of verification
/// configurations, tried in order until one verifies a token, together with
/// the set-once cache that URL-bound configurations resolve their keys from.
#[derive(Debug)]
pub struct Usso {
    jwt_configs: Vec<JWTConfig>,
    jwks_cache: JwksCache,
}

impl Usso {
    /// The configurations, in the order they are tried.
    pub closed spec fn configs(&self) -> Seq<JWTConfig> {
        self.jwt_configs@
    }

    /// The key-set cache the URL-bound configurations read.
    pub closed spec fn cache(&self) -> JwksCache {
        self.jwks_cache
    }

    /// Builds a resolver from exactly one binding source: an explicit
    /// configuration, a JWKS URL (whose keys are attached later, once
    /// fetched), or a static key set. At least one source must be supplied —
    /// a resolver with nothing to verify against cannot exist.
    pub fn new(jwt_config: Option<JWTConfig>, jwk_url: Option<String>, key: Option<Jwks>) -> (r:
        Usso)
        requires
            jwt_config is Some || jwk_url is Some || key is Some,
        ensures
            r.configs().len() == 1,
            jwt_config matches Some(c) ==> r.configs()[0] == c,
            jwt_config is None ==> (jwk_url matches Some(u) ==> r.configs()[0].binding
                == KeyBinding::JwksUrl(u)),
            jwt_config is None && jwk_url is None ==> (key matches Some(ks)
                ==> r.configs()[0].binding == KeyBinding::StaticKeys(ks)),
            !r.cache().is_initialized(),
    {
        let jwt_configs = Self::initialize_configs(jwt_config, jwk_url, key);
        Usso { jwt_configs, jwks_cache: JwksCache::new() }
    }

    /// Builds the configuration list from the one supplied source, in the
    /// precedence order: explicit configuration, then JWKS URL, then static
    /// key set.
    pub fn initialize_configs(
        jwt_config: Option<JWTConfig>,
        jwk_url: Option<String>,
        key: Option<Jwks>,
    ) -> (r: Vec<JWTConfig>)
        requires
            jwt_config is Some || jwk_url is Some || key is Some,
        ensures
            r@.len() == 1,
            jwt_config matches Some(c) ==> r@[0] == c,
            jwt_config is None ==> (jwk_url matches Some(u) ==> r@[0].binding
                == KeyBinding::JwksUrl(u)),
            jwt_config is None && jwk_url is None ==> (key matches Some(ks) ==> r@[0].binding
                == KeyBinding::StaticKeys(ks)),
    {
        match jwt_config {
            Some(config) => vec![config],
            None => match jwk_url {
                Some(url) => vec![JWTConfig::new(Some(url), None)],
                None => match key {
                    Some(keyset) => vec![JWTConfig::new(None, Some(keyset))],
                    None => vstd::pervasive::unreached(),
                },
            },
        }
    }

    /// Builds a resolver from an explicit, ordered, non-empty list of
    /// configurations.
    pub fn with_configs(configs: Vec<JWTConfig>) -> (r: Usso)
        requires
            configs@.len() > 0,
        ensures
            r.configs() == configs@,
            !r.cache().is_initialized(),
    {
        Usso { jwt_configs: configs, jwks_cache: JwksCache::new() }
    }

    /// Attaches a fetched key set to this resolver's cache, once: a second
    /// attachment fails and does not replace the first key set. URL-bound
    /// configurations resolve their keys from this cache.
    pub fn attach_jwks(&mut self, jwks: Jwks) -> (r: Result<(), JwksError>)
        ensures
            final(self).configs() == old(self).configs(),
            old(self).cache().is_initialized() ==> *final(self) == *old(self) && r is Err,
            !old(self).cache().is_initialized() ==> final(self).cache().cached() == Some(jwks)
                && r is Ok,
    {
        self.jwks_cache.set_once(jwks)
    }

    /// Verifies a token against each configuration in order; the first
    /// success wins. When every configuration fails, the failure reasons are
    /// deliberately discarded and only `Unauthorized` is reported, so that a
    /// caller probing key ids learns nothing about which configuration almost
    /// worked. A success always returns the claims of the token's own
    /// payload.
    pub fn user_data_from_token(&self, token: &str) -> (r: Result<UserData, USSOError>)
        ensures
            r matches Ok(u) ==> spec_claims_of_token(token.spec_bytes(), u),
            r matches Err(e) ==> e is Unauthorized,
            !spec_header_ok(token.spec_bytes()) ==> r is Err,
            ((forall|k: int|
                0 <= k < self.configs().len() ==> !((#[trigger] self.configs()[k]).binding
                    is Secret)) && spec_kid_missing(token.spec_bytes())) ==> r is Err,
    {
        let n = self.jwt_configs.len();
        let mut i: usize = 0;
        while i < n
            invariant
                n == self.jwt_configs@.len(),
                i <= n,
            decreases n - i,
        {
            let config = &self.jwt_configs[i];
            let attempt = match &config.binding {
                KeyBinding::JwksUrl(_) => match get_jwk_keys(&self.jwks_cache) {
                    Ok(ks) => config.decode_with_keys(token, ks),
                    Err(_) => Err(USSOError::Other("JWKS cache is not initialized".to_owned())),
                },
                _ => config.decode(token),
            };
            match attempt {
                Ok(user_data) => {
                    proof {
                        assert(self.configs()[i as int] == self.jwt_configs@[i as int]);
                    }
                    return Ok(user_data);
                },
                Err(_) => {},
            }
            i = i + 1;
        }
        Err(USSOError::Unauthorized)
    }
}

} // verus!
