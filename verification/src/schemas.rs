//! The data shapes of the library: decoded claims, verification keys and key
//! sets, the unverified token header, and the verification configuration.

use vstd::prelude::*;

use crate::b64tools::UuidValue;
use crate::codec::{b64url_nopad_decode, b64url_nopad_decoded, uuid_parse_bytes, uuid_parsed};
use crate::exceptions::{JwtError, USSOError};
use crate::json::{
    all_strings, bool_field, json_field, json_parsed, opt_str_field, parse_json, req_str_field,
    spec_bool_field, spec_field, spec_opt_str_field, spec_str_field, strings_match, string_list,
    take_field, JsonValue,
};

verus! {

use vstd::string::StringSliceAdditionalSpecFns;

// ---------------------------------------------------------------------------
// Claims
// ---------------------------------------------------------------------------

/// The decoded payload of a verified token: the authenticated claims.
#[derive(Debug, PartialEq, Eq)]
pub struct UserData {
    pub user_id: String,
    pub workspace_id: Option<String>,
    pub workspace_ids: Vec<String>,
    pub token_type: String,
    pub email: Option<String>,
    pub phone: Option<String>,
    pub username: Option<String>,
    pub authentication_method: Option<String>,
    pub is_active: bool,
    pub jti: Option<String>,
    pub data: Option<JsonValue>,
    pub token: Option<String>,
}

/// A JSON document has the shape of a claims payload: an object whose
/// `user_id` and `token_type` are strings, whose `is_active` is a boolean,
/// whose `workspace_ids` is a list of strings, and whose remaining known
/// fields are strings where present.
pub open spec fn claims_wf(j: JsonValue) -> bool {
    &&& j is Obj
    &&& spec_str_field(j, "user_id"@) is Some
    &&& spec_str_field(j, "token_type"@) is Some
    &&& spec_bool_field(j, "is_active"@) is Some
    &&& (match spec_field(j, "workspace_ids"@) {
        Some(JsonValue::Arr(items)) => all_strings(items@),
        _ => false,
    })
    &&& spec_opt_str_field(j, "workspace_id"@) is Some
    &&& spec_opt_str_field(j, "email"@) is Some
    &&& spec_opt_str_field(j, "phone"@) is Some
    &&& spec_opt_str_field(j, "username"@) is Some
    &&& spec_opt_str_field(j, "authentication_method"@) is Some
    &&& spec_opt_str_field(j, "jti"@) is Some
    &&& spec_opt_str_field(j, "token"@) is Some
}

/// The claims object `u` lists exactly what the JSON document `j` holds.
pub open spec fn claims_match(j: JsonValue, u: UserData) -> bool {
    &&& spec_str_field(j, "user_id"@) == Some(u.user_id@)
    &&& spec_str_field(j, "token_type"@) == Some(u.token_type@)
    &&& spec_bool_field(j, "is_active"@) == Some(u.is_active)
    &&& (match spec_field(j, "workspace_ids"@) {
        Some(JsonValue::Arr(items)) => strings_match(items@, u.workspace_ids@),
        _ => false,
    })
    &&& spec_opt_str_field(j, "workspace_id"@) == Some(u.workspace_id.deep_view())
    &&& spec_opt_str_field(j, "email"@) == Some(u.email.deep_view())
    &&& spec_opt_str_field(j, "phone"@) == Some(u.phone.deep_view())
    &&& spec_opt_str_field(j, "username"@) == Some(u.username.deep_view())
    &&& spec_opt_str_field(j, "authentication_method"@) == Some(
        u.authentication_method.deep_view(),
    )
    &&& spec_opt_str_field(j, "jti"@) == Some(u.jti.deep_view())
    &&& spec_opt_str_field(j, "token"@) == Some(u.token.deep_view())
    &&& (match spec_field(j, "data"@) {
        None => u.data is None,
        Some(JsonValue::Null) => u.data is None,
        Some(v) => u.data == Some(v),
    })
}

impl UserData {
    /// Materializes claims from a parsed JSON document; `None` exactly when
    /// the document does not have the claims shape.
    pub fn from_json(value: JsonValue) -> (r: Option<UserData>)
        ensures
            match r {
                Some(u) => claims_wf(value) && claims_match(value, u),
                None => !claims_wf(value),
            },
    {
        let user_id = match req_str_field(&value, "user_id") {
            Some(s) => s,
            None => {
                return None;
            },
        };
        let token_type = match req_str_field(&value, "token_type") {
            Some(s) => s,
            None => {
                return None;
            },
        };
        let is_active = match bool_field(&value, "is_active") {
            Some(b) => b,
            None => {
                return None;
            },
        };
        let workspace_ids = match json_field(&value, "workspace_ids") {
            Some(JsonValue::Arr(items)) => match string_list(items) {
                Some(out) => out,
                None => {
                    return None;
                },
            },
            _ => {
                return None;
            },
        };
        let workspace_id = match opt_str_field(&value, "workspace_id") {
            Ok(o) => o,
            Err(()) => {
                return None;
            },
        };
        let email = match opt_str_field(&value, "email") {
            Ok(o) => o,
            Err(()) => {
                return None;
            },
        };
        let phone = match opt_str_field(&value, "phone") {
            Ok(o) => o,
            Err(()) => {
                return None;
            },
        };
        let username = match opt_str_field(&value, "username") {
            Ok(o) => o,
            Err(()) => {
                return None;
            },
        };
        let authentication_method = match opt_str_field(&value, "authentication_method") {
            Ok(o) => o,
            Err(()) => {
                return None;
            },
        };
        let jti = match opt_str_field(&value, "jti") {
            Ok(o) => o,
            Err(()) => {
                return None;
            },
        };
        let token = match opt_str_field(&value, "token") {
            Ok(o) => o,
            Err(()) => {
                return None;
            },
        };
        let mut fields = match value {
            JsonValue::Obj(f) => f,
            _ => {
                return None;
            },
        };
        let data = match take_field(&mut fields, "data") {
            Some(JsonValue::Null) => None,
            Some(v) => Some(v),
            None => None,
        };
        Some(UserData {
            user_id,
            workspace_id,
            workspace_ids,
            token_type,
            email,
            phone,
            username,
            authentication_method,
            is_active,
            jti,
            data,
            token,
        })
    }

    /// The subject id read as a UUID; `None` exactly when `user_id` is not a
    /// UUID in an accepted spelling. A returned value always satisfies its
    /// sixteen-byte invariant.
    pub fn uid(&self) -> (r: Option<UuidValue>)
        ensures
            match r {
                Some(u) => uuid_parsed(self.user_id@) == Some(u.bytes@) && u.wf(),
                None => uuid_parsed(self.user_id@) is None,
            },
    {
        match uuid_parse_bytes(self.user_id.as_str()) {
            Some(bytes) => Some(UuidValue { bytes }),
            None => None,
        }
    }
}

// ---------------------------------------------------------------------------
// Keys and key sets
// ---------------------------------------------------------------------------

/// An asymmetric public key description from a JWKS document.
#[derive(Debug, PartialEq, Eq)]
pub struct Jwk {
    pub kid: String,
    pub kty: String,
    pub alg: String,
    pub key_use: String,
    pub n: String,
    pub e: String,
}

/// An ordered collection of keys.
#[derive(Debug, PartialEq, Eq)]
pub struct Jwks {
    pub keys: Vec<Jwk>,
}

/// A JSON document has the shape of one key: an object whose `kid`, `kty`,
/// `alg`, `use`, `n` and `e` fields are all strings.
pub open spec fn jwk_wf(j: JsonValue) -> bool {
    &&& spec_str_field(j, "kid"@) is Some
    &&& spec_str_field(j, "kty"@) is Some
    &&& spec_str_field(j, "alg"@) is Some
    &&& spec_str_field(j, "use"@) is Some
    &&& spec_str_field(j, "n"@) is Some
    &&& spec_str_field(j, "e"@) is Some
}

/// The key `k` lists exactly what the JSON document `j` holds.
pub open spec fn jwk_match(j: JsonValue, k: Jwk) -> bool {
    &&& spec_str_field(j, "kid"@) == Some(k.kid@)
    &&& spec_str_field(j, "kty"@) == Some(k.kty@)
    &&& spec_str_field(j, "alg"@) == Some(k.alg@)
    &&& spec_str_field(j, "use"@) == Some(k.key_use@)
    &&& spec_str_field(j, "n"@) == Some(k.n@)
    &&& spec_str_field(j, "e"@) == Some(k.e@)
}

/// Every document of `items` has the shape of a key.
pub open spec fn jwk_seq_wf(items: Seq<JsonValue>) -> bool {
    forall|i: int| 0 <= i < items.len() ==> jwk_wf(#[trigger] items[i])
}

/// `keys` lists exactly the keys of the documents `items`, in order.
pub open spec fn jwk_seq_match(items: Seq<JsonValue>, keys: Seq<Jwk>) -> bool {
    &&& keys.len() == items.len()
    &&& forall|i: int| 0 <= i < items.len() ==> jwk_match(items[i], #[trigger] keys[i])
}

/// A JSON document has the shape of a JWKS: an object whose `keys` field is
/// an array of well-formed keys.
pub open spec fn jwks_wf(j: JsonValue) -> bool {
    match spec_field(j, "keys"@) {
        Some(JsonValue::Arr(items)) => jwk_seq_wf(items@),
        _ => false,
    }
}

/// The key set `ks` lists exactly the keys of the JSON document `j`, in
/// order.
pub open spec fn jwks_match(j: JsonValue, ks: Jwks) -> bool {
    match spec_field(j, "keys"@) {
        Some(JsonValue::Arr(items)) => jwk_seq_match(items@, ks.keys@),
        _ => false,
    }
}

impl Jwk {
    /// Materializes one key from a parsed JSON document; `None` exactly when
    /// the document does not have the key shape.
    pub fn from_json(value: &JsonValue) -> (r: Option<Jwk>)
        ensures
            match r {
                Some(k) => jwk_wf(*value) && jwk_match(*value, k),
                None => !jwk_wf(*value),
            },
    {
        let kid = match req_str_field(value, "kid") {
            Some(s) => s,
            None => {
                return None;
            },
        };
        let kty = match req_str_field(value, "kty") {
            Some(s) => s,
            None => {
                return None;
            },
        };
        let alg = match req_str_field(value, "alg") {
            Some(s) => s,
            None => {
                return None;
            },
        };
        let key_use = match req_str_field(value, "use") {
            Some(s) => s,
            None => {
                return None;
            },
        };
        let n = match req_str_field(value, "n") {
            Some(s) => s,
            None => {
                return None;
            },
        };
        let e = match req_str_field(value, "e") {
            Some(s) => s,
            None => {
                return None;
            },
        };
        Some(Jwk { kid, kty, alg, key_use, n, e })
    }
}

/// The first key of `keys` whose id is `kid`, if any.
pub open spec fn spec_match_kid(keys: Seq<Jwk>, kid: Seq<char>) -> Option<Jwk>
    decreases keys.len(),
{
    if keys.len() == 0 {
        None
    } else if keys[0].kid@ == kid {
        Some(keys[0])
    } else {
        spec_match_kid(keys.drop_first(), kid)
    }
}

impl Jwks {
    /// Materializes a key set from a parsed JSON document; `None` exactly
    /// when the document does not have the JWKS shape. The resulting list may
    /// be empty; the fetcher rejects an empty list separately.
    pub fn from_json(value: &JsonValue) -> (r: Option<Jwks>)
        ensures
            match r {
                Some(ks) => jwks_wf(*value) && jwks_match(*value, ks),
                None => !jwks_wf(*value),
            },
    {
        let keys_field = json_field(value, "keys");
        let items = match keys_field {
            Some(JsonValue::Arr(items)) => items,
            _ => {
                return None;
            },
        };
        proof {
            assert(spec_field(*value, "keys"@) == Some(JsonValue::Arr(*items)));
        }
        let n = items.len();
        let mut keys: Vec<Jwk> = Vec::new();
        let mut i: usize = 0;
        while i < n
            invariant
                n == items@.len(),
                i <= n,
                keys@.len() == i,
                spec_field(*value, "keys"@) == Some(JsonValue::Arr(*items)),
                forall|k: int| 0 <= k < i ==> jwk_wf(#[trigger] items@[k]),
                forall|k: int| 0 <= k < i ==> jwk_match(items@[k], #[trigger] keys@[k]),
            decreases n - i,
        {
            match Jwk::from_json(&items[i]) {
                Some(k) => {
                    let ghost old_keys = keys@;
                    keys.push(k);
                    proof {
                        assert forall|k2: int| 0 <= k2 < i + 1 implies jwk_match(
                            items@[k2],
                            #[trigger] keys@[k2],
                        ) by {
                            if k2 < i {
                                assert(keys@[k2] == old_keys[k2]);
                            }
                        }
                    }
                },
                None => {
                    proof {
                        assert(jwks_wf(*value) == jwk_seq_wf(items@));
                        assert(!jwk_seq_wf(items@)) by {
                            if jwk_seq_wf(items@) {
                                assert(jwk_wf(items@[i as int]));
                            }
                        }
                    }
                    return None;
                },
            }
            i = i + 1;
        }
        Some(Jwks { keys })
    }

    /// Resolves a key by id: a linear scan in which the first key whose id
    /// equals `kid` exactly wins; `None` when no key matches. Absence is not
    /// an error — the caller decides what a missing key means.
    pub fn match_kid<'a>(&'a self, kid: &str) -> (r: Option<&'a Jwk>)
        ensures
            match r {
                Some(k) => spec_match_kid(self.keys@, kid@) == Some(*k),
                None => spec_match_kid(self.keys@, kid@) is None,
            },
    {
        let n = self.keys.len();
        let mut i: usize = 0;
        proof {
            assert(self.keys@.skip(0) =~= self.keys@);
        }
        while i < n
            invariant
                n == self.keys@.len(),
                i <= n,
                spec_match_kid(self.keys@, kid@) == spec_match_kid(self.keys@.skip(i as int), kid@),
            decreases n - i,
        {
            proof {
                assert(self.keys@.skip(i as int)[0] == self.keys@[i as int]);
                assert(self.keys@.skip(i as int).drop_first() =~= self.keys@.skip(i + 1));
            }
            if crate::json::str_eq(self.keys[i].kid.as_str(), kid) {
                return Some(&self.keys[i]);
            }
            i = i + 1;
        }
        None
    }
}

/// When exactly one key carries the id, the scan resolves to that key: a
/// match by `kid` never returns some other key, and never misses.
pub proof fn lemma_match_kid_unique(keys: Seq<Jwk>, kid: Seq<char>, at: int)
    requires
        0 <= at < keys.len(),
        keys[at].kid@ == kid,
        forall|i: int| 0 <= i < keys.len() && i != at ==> (#[trigger] keys[i]).kid@ != kid,
    ensures
        spec_match_kid(keys, kid) == Some(keys[at]),
    decreases keys.len(),
{
    if at == 0 {
    } else {
        assert(keys[0].kid@ != kid);
        lemma_match_kid_unique(keys.drop_first(), kid, at - 1);
        assert(keys.drop_first()[at - 1] == keys[at]);
    }
}

// ---------------------------------------------------------------------------
// The compact token and its header
// ---------------------------------------------------------------------------

/// The unverified header of a compact token.
#[derive(Debug, PartialEq, Eq)]
pub struct JwtHeader {
    pub alg: String,
    pub typ: Option<String>,
    pub kid: Option<String>,
    pub host: Option<String>,
}

/// The position of the first `.` at or after `from`, if any.
pub open spec fn spec_find_dot(bytes: Seq<u8>, from: int) -> Option<int>
    decreases bytes.len() - from,
    when 0 <= from <= bytes.len()
{
    if from >= bytes.len() {
        None
    } else if bytes[from] == 46 {
        Some(from)
    } else {
        spec_find_dot(bytes, from + 1)
    }
}

/// The positions of the two dots of a well-formed compact token: the token
/// splits on `.` into exactly three segments.
pub open spec fn spec_token_dots(bytes: Seq<u8>) -> Option<(int, int)> {
    match spec_find_dot(bytes, 0) {
        None => None,
        Some(i) => match spec_find_dot(bytes, i + 1) {
            None => None,
            Some(j) => {
                if spec_find_dot(bytes, j + 1) is None {
                    Some((i, j))
                } else {
                    None
                }
            },
        },
    }
}

/// The header document of a compact token: the first segment, base64url
/// decoded without padding and parsed as JSON. `None` when the token does not
/// have three segments or the segment fails either decoding.
pub open spec fn spec_header_doc(bytes: Seq<u8>) -> Option<JsonValue> {
    match spec_token_dots(bytes) {
        Some(dots) => match b64url_nopad_decoded(bytes.subrange(0, dots.0)) {
            Some(hb) => json_parsed(hb),
            None => None,
        },
        None => None,
    }
}

/// The payload document of a compact token: the second segment, base64url
/// decoded without padding and parsed as JSON.
pub open spec fn spec_payload_doc(bytes: Seq<u8>) -> Option<JsonValue> {
    match spec_token_dots(bytes) {
        Some(dots) => match b64url_nopad_decoded(bytes.subrange(dots.0 + 1, dots.1)) {
            Some(pb) => json_parsed(pb),
            None => None,
        },
        None => None,
    }
}

/// A JSON document has the shape of a token header: `alg` is a string, and
/// `typ`, `kid` and `host` are strings where present.
pub open spec fn header_wf(j: JsonValue) -> bool {
    &&& spec_str_field(j, "alg"@) is Some
    &&& spec_opt_str_field(j, "typ"@) is Some
    &&& spec_opt_str_field(j, "kid"@) is Some
    &&& spec_opt_str_field(j, "host"@) is Some
}

/// The header `h` lists exactly what the JSON document `j` holds.
pub open spec fn header_match(j: JsonValue, h: JwtHeader) -> bool {
    &&& spec_str_field(j, "alg"@) == Some(h.alg@)
    &&& spec_opt_str_field(j, "typ"@) == Some(h.typ.deep_view())
    &&& spec_opt_str_field(j, "kid"@) == Some(h.kid.deep_view())
    &&& spec_opt_str_field(j, "host"@) == Some(h.host.deep_view())
}

/// The position of the first `.` at or after `from` in `bytes`.
fn find_dot(bytes: &[u8], from: usize) -> (r: Option<usize>)
    requires
        from <= bytes@.len(),
    ensures
        match r {
            Some(i) => spec_find_dot(bytes@, from as int) == Some(i as int) && from <= i
                < bytes@.len(),
            None => spec_find_dot(bytes@, from as int) is None,
        },
{
    let n = bytes.len();
    let mut i: usize = from;
    while i < n
        invariant
            from <= i <= n == bytes@.len(),
            spec_find_dot(bytes@, from as int) == spec_find_dot(bytes@, i as int),
        decreases n - i,
    {
        if bytes[i] == 46 {
            return Some(i);
        }
        i = i + 1;
    }
    None
}

impl JwtHeader {
    /// Materializes the header from a parsed JSON document; `None` exactly
    /// when the document does not have the header shape.
    pub fn from_json(value: &JsonValue) -> (r: Option<JwtHeader>)
        ensures
            match r {
                Some(h) => header_wf(*value) && header_match(*value, h),
                None => !header_wf(*value),
            },
    {
        let alg = match req_str_field(value, "alg") {
            Some(s) => s,
            None => {
                return None;
            },
        };
        let typ = match opt_str_field(value, "typ") {
            Ok(o) => o,
            Err(()) => {
                return None;
            },
        };
        let kid = match opt_str_field(value, "kid") {
            Ok(o) => o,
            Err(()) => {
                return None;
            },
        };
        let host = match opt_str_field(value, "host") {
            Ok(o) => o,
            Err(()) => {
                return None;
            },
        };
        Some(JwtHeader { alg, typ, kid, host })
    }

    /// Decodes the unverified header of a compact token.
    ///
    /// The token must split on `.` into exactly three segments, else
    /// `InvalidFormat`; the first segment must decode as unpadded base64url
    /// and parse as a JSON document of the header shape, else
    /// `DecodingError`. Nothing is verified about the signature here.
    pub fn from_token(jwt: &str) -> (r: Result<JwtHeader, JwtError>)
        ensures
            r matches Err(e) ==> (e is InvalidFormat || e is DecodingError),
            (r matches Err(e) && e is InvalidFormat) <==> spec_token_dots(jwt.spec_bytes())
                is None,
            r is Ok <==> (spec_header_doc(jwt.spec_bytes()) matches Some(doc) && header_wf(doc)),
            r matches Ok(h) ==> (spec_header_doc(jwt.spec_bytes()) matches Some(doc)
                && header_match(doc, h)),
    {
        let bytes = jwt.as_bytes();
        let n = bytes.len();
        let first = match find_dot(bytes, 0) {
            Some(i) => i,
            None => {
                return Err(JwtError::InvalidFormat);
            },
        };
        let second = match find_dot(bytes, first + 1) {
            Some(j) => j,
            None => {
                return Err(JwtError::InvalidFormat);
            },
        };
        match find_dot(bytes, second + 1) {
            Some(_) => {
                return Err(JwtError::InvalidFormat);
            },
            None => {},
        }
        let header_segment = &bytes[0..first];
        let header_bytes = match b64url_nopad_decode(header_segment) {
            Some(v) => v,
            None => {
                return Err(JwtError::DecodingError("failed to decode base64".to_owned()));
            },
        };
        proof {
            assert(header_bytes.deep_view() =~= header_bytes@);
        }
        let doc = match parse_json(header_bytes.as_slice()) {
            Some(d) => d,
            None => {
                return Err(JwtError::DecodingError("invalid JSON in header".to_owned()));
            },
        };
        match JwtHeader::from_json(&doc) {
            Some(h) => Ok(h),
            None => Err(JwtError::DecodingError("header has the wrong shape".to_owned())),
        }
    }
}

/// The payload document of a compact token: the second segment decoded and
/// parsed, exactly as [`spec_payload_doc`] says; `None` when the token does
/// not have three segments or the segment fails either decoding.
pub fn token_payload_json(jwt: &str) -> (r: Option<JsonValue>)
    ensures
        r == spec_payload_doc(jwt.spec_bytes()),
{
    let bytes = jwt.as_bytes();
    let n = bytes.len();
    let first = match find_dot(bytes, 0) {
        Some(i) => i,
        None => {
            return None;
        },
    };
    let second = match find_dot(bytes, first + 1) {
        Some(j) => j,
        None => {
            return None;
        },
    };
    match find_dot(bytes, second + 1) {
        Some(_) => {
            return None;
        },
        None => {},
    }
    let payload_segment = &bytes[first + 1..second];
    let payload_bytes = match b64url_nopad_decode(payload_segment) {
        Some(v) => v,
        None => {
            return None;
        },
    };
    proof {
        assert(payload_bytes.deep_view() =~= payload_bytes@);
    }
    parse_json(payload_bytes.as_slice())
}

/// A scan for an id that no key carries reports "not found".
pub proof fn lemma_match_kid_absent(keys: Seq<Jwk>, kid: Seq<char>)
    requires
        forall|i: int| 0 <= i < keys.len() ==> (#[trigger] keys[i]).kid@ != kid,
    ensures
        spec_match_kid(keys, kid) is None,
    decreases keys.len(),
{
    if keys.len() > 0 {
        lemma_match_kid_absent(keys.drop_first(), kid);
    }
}

// ---------------------------------------------------------------------------
// Verification configuration
// ---------------------------------------------------------------------------

/// The key material one verification configuration is bound to: exactly one
/// of a fixed symmetric secret, a static key set, or a JWKS URL whose key set
/// is fetched and cached separately.
#[derive(Debug, PartialEq, Eq)]
pub enum KeyBinding {
    /// A fixed symmetric secret, verified under `HS256`.
    Secret(String),
    /// A static key set, resolved by key id and verified under `RS256`.
    StaticKeys(Jwks),
    /// A JWKS URL; the key set is fetched outside the library and resolved
    /// from the resolver's cache.
    JwksUrl(String),
}

/// One verification configuration: a key binding and the algorithm name it
/// accepts.
#[derive(Debug, PartialEq, Eq)]
pub struct JWTConfig {
    pub binding: KeyBinding,
    pub algorithm: String,
}

/// The token's header parses, has the header shape, and names no key id —
/// under a key-set-bound configuration such a token must be rejected.
pub open spec fn spec_kid_missing(token: Seq<u8>) -> bool {
    &&& spec_header_doc(token) matches Some(doc)
    &&& spec_header_doc(token) matches Some(doc) ==> header_wf(doc) && spec_opt_str_field(
        doc,
        "kid"@,
    ) == Some(Option::<Seq<char>>::None)
}

/// The token's header parses, has the header shape, and names a key id that
/// `keys` does not carry.
pub open spec fn spec_kid_unknown(token: Seq<u8>, keys: Seq<Jwk>) -> bool {
    &&& spec_header_doc(token) matches Some(doc)
    &&& spec_header_doc(token) matches Some(doc) ==> header_wf(doc) && (spec_opt_str_field(
        doc,
        "kid"@,
    ) matches Some(Some(k)) && spec_match_kid(keys, k) is None)
}

impl JWTConfig {
    /// Builds a configuration from a pair of optional sources: a
    /// supplied key set wins over a JWKS URL, and one of the two must be
    /// given — a configuration binds exactly one kind of key material. The
    /// accepted algorithm defaults to `RS256`.
    pub fn new(jwk_url: Option<String>, keys: Option<Jwks>) -> (r: JWTConfig)
        requires
            jwk_url is Some || keys is Some,
        ensures
            keys matches Some(ks) ==> r.binding == KeyBinding::StaticKeys(ks),
            keys is None ==> (jwk_url matches Some(u) ==> r.binding == KeyBinding::JwksUrl(u)),
            r.algorithm@ == "RS256"@,
    {
        let binding = match keys {
            Some(ks) => KeyBinding::StaticKeys(ks),
            None => match jwk_url {
                Some(url) => KeyBinding::JwksUrl(url),
                None => vstd::pervasive::unreached(),
            },
        };
        JWTConfig { binding, algorithm: "RS256".to_owned() }
    }

    /// Builds a secret-bound configuration, verified under `HS256`.
    pub fn with_secret(secret: String) -> (r: JWTConfig)
        ensures
            r.binding == KeyBinding::Secret(secret),
            r.algorithm@ == "HS256"@,
    {
        JWTConfig { binding: KeyBinding::Secret(secret), algorithm: "HS256".to_owned() }
    }

    /// The key-set decode path: the header must name a key id, the key id
    /// must resolve in `keys`, and the token must verify under the resolved
    /// key. A token whose header names no key id is rejected, as is one whose
    /// key id no key carries; every failure is `InvalidToken`.
    pub fn decode_with_keys(&self, token: &str, keys: &Jwks) -> (r: Result<UserData, USSOError>)
        ensures
            r matches Err(e) ==> e is InvalidToken,
            r matches Ok(u) ==> crate::resolver::spec_claims_of_token(token.spec_bytes(), u),
            spec_kid_missing(token.spec_bytes()) ==> r == Err::<UserData, USSOError>(USSOError::InvalidToken),
            spec_kid_unknown(token.spec_bytes(), keys.keys@) ==> r == Err::<UserData, USSOError>(USSOError::InvalidToken),
            !crate::resolver::spec_header_ok(token.spec_bytes()) ==> r == Err::<UserData, USSOError>(USSOError::InvalidToken),
            (crate::resolver::spec_header_ok(token.spec_bytes())
                && !crate::resolver::spec_alg_declared(token.spec_bytes(), "RS256"@)) ==> r
                == Err::<UserData, USSOError>(USSOError::InvalidToken),
    {
        let header = match JwtHeader::from_token(token) {
            Ok(h) => h,
            Err(_) => {
                return Err(USSOError::InvalidToken);
            },
        };
        let kid = match header.kid {
            Some(k) => k,
            None => {
                return Err(USSOError::InvalidToken);
            },
        };
        let key = match keys.match_kid(kid.as_str()) {
            Some(k) => k,
            None => {
                return Err(USSOError::InvalidToken);
            },
        };
        let algorithms = vec![crate::resolver::Algorithm::RS256];
        let verified = crate::resolver::decode_token(key, token, algorithms.as_slice());
        proof {
            match crate::resolver::spec_token_alg(token.spec_bytes()) {
                Some(a) => {
                    if a != "RS256"@ {
                        crate::resolver::lemma_single_alg_allowed(a, algorithms@);
                    }
                },
                None => {},
            }
        }
        verified
    }

    /// The configuration's own decode path: a secret binding verifies under
    /// `HS256`, a static key set resolves by key id, and a URL binding fails
    /// here — its keys live in the resolver's cache, which the resolver
    /// supplies.
    pub fn decode(&self, token: &str) -> (r: Result<UserData, USSOError>)
        ensures
            r matches Ok(u) ==> crate::resolver::spec_claims_of_token(token.spec_bytes(), u),
            r matches Err(e) ==> (e is InvalidToken || e is Other),
            self.binding matches KeyBinding::JwksUrl(_) ==> (r matches Err(e) && e is Other),
            (self.binding matches KeyBinding::StaticKeys(ks) && spec_kid_missing(
                token.spec_bytes(),
            )) ==> r == Err::<UserData, USSOError>(USSOError::InvalidToken),
            (self.binding matches KeyBinding::StaticKeys(ks) && spec_kid_unknown(
                token.spec_bytes(),
                ks.keys@,
            )) ==> r == Err::<UserData, USSOError>(USSOError::InvalidToken),
            (!crate::resolver::spec_header_ok(token.spec_bytes()) && !(self.binding
                is JwksUrl)) ==> r == Err::<UserData, USSOError>(USSOError::InvalidToken),
            (self.binding is Secret && crate::resolver::spec_header_ok(token.spec_bytes())
                && !crate::resolver::spec_alg_declared(token.spec_bytes(), "HS256"@)) ==> r
                == Err::<UserData, USSOError>(USSOError::InvalidToken),
            (self.binding is StaticKeys && crate::resolver::spec_header_ok(token.spec_bytes())
                && !crate::resolver::spec_alg_declared(token.spec_bytes(), "RS256"@)) ==> r
                == Err::<UserData, USSOError>(USSOError::InvalidToken),
    {
        match &self.binding {
            KeyBinding::Secret(secret) => {
                let algorithms = vec![crate::resolver::Algorithm::HS256];
                let verified = crate::resolver::verify_secret_token(
                    secret.as_str(),
                    token,
                    algorithms.as_slice(),
                );
                proof {
                    match crate::resolver::spec_token_alg(token.spec_bytes()) {
                        Some(a) => {
                            if a != "HS256"@ {
                                crate::resolver::lemma_single_alg_allowed(a, algorithms@);
                            }
                        },
                        None => {},
                    }
                }
                verified
            },
            KeyBinding::StaticKeys(keys) => self.decode_with_keys(token, keys),
            KeyBinding::JwksUrl(_) => Err(USSOError::Other("keyset is not set".to_owned())),
        }
    }
}

} // verus!
