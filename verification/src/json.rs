//! A model of JSON documents.
//!
//! Decoded token headers, claim payloads and JWKS documents are all JSON. The
//! text is parsed by a trusted codec into [`JsonValue`], a plain tree of
//! booleans, integers, strings, arrays and objects; everything the library
//! reads out of a document is then verified logic over that tree.

use vstd::prelude::*;

verus! {

use vstd::string::StringSliceAdditionalSpecFns;

/// A parsed JSON document.
///
/// Object fields are kept as a list of pairs in the parser's order (the
/// parser yields them sorted by field name). A number that does not fit a
/// signed 64-bit integer, such as a fraction, is represented by `Other`:
/// the claims this library reads are strings, booleans, string lists and
/// whole-second timestamps, so nothing is lost that the logic looks at.
#[derive(Debug, PartialEq, Eq)]
pub enum JsonValue {
    Null,
    Bool(bool),
    Int(i64),
    Str(String),
    Arr(Vec<JsonValue>),
    Obj(Vec<(String, JsonValue)>),
    Other,
}

/// What the trusted JSON parser returns on given bytes: `None` on text that
/// is not valid JSON, otherwise the document as a [`JsonValue`].
pub uninterp spec fn json_parsed(bytes: Seq<u8>) -> Option<JsonValue>;

/// The parser's value type, carried opaquely between the two trusted parsing
/// steps.
#[verifier::external_type_specification]
#[verifier::external_body]
pub struct ExValue(serde_json::Value);

/// Relies on `serde_json::from_slice::<serde_json::Value>`: parsing is a
/// function of the input bytes alone, and fails exactly on invalid JSON.
/// The parsed value is converted to the model by [`json_of_serde`].
#[verifier::external_body]
pub(crate) fn parse_json(bytes: &[u8]) -> (r: Option<JsonValue>)
    ensures
        r == json_parsed(bytes@),
{
    match serde_json::from_slice::<serde_json::Value>(bytes) {
        Ok(v) => Some(json_of_serde(v)),
        Err(_) => None,
    }
}

/// Relies on the variants of `serde_json::Value`: each is mapped to the model
/// variant of the same shape, numbers through `Number::as_i64`; a number with
/// no `i64` value becomes `Other`. Object fields come out of `serde_json`'s
/// map in ascending name order.
#[verifier::external_body]
fn json_of_serde(v: serde_json::Value) -> JsonValue {
    match v {
        serde_json::Value::Null => JsonValue::Null,
        serde_json::Value::Bool(b) => JsonValue::Bool(b),
        serde_json::Value::Number(n) => match n.as_i64() {
            Some(i) => JsonValue::Int(i),
            None => JsonValue::Other,
        },
        serde_json::Value::String(s) => JsonValue::Str(s),
        serde_json::Value::Array(a) => JsonValue::Arr(a.into_iter().map(json_of_serde).collect()),
        serde_json::Value::Object(m) => JsonValue::Obj(
            m.into_iter().map(|p| (p.0, json_of_serde(p.1))).collect(),
        ),
    }
}

/// The first field of `fields` named `key`, if any.
pub open spec fn spec_obj_get(fields: Seq<(String, JsonValue)>, key: Seq<char>) -> Option<JsonValue>
    decreases fields.len(),
{
    if fields.len() == 0 {
        None
    } else if fields[0].0@ == key {
        Some(fields[0].1)
    } else {
        spec_obj_get(fields.drop_first(), key)
    }
}

/// The field named `key` of a JSON object; `None` on a missing field or on a
/// document that is not an object.
pub open spec fn spec_field(j: JsonValue, key: Seq<char>) -> Option<JsonValue> {
    match j {
        JsonValue::Obj(fields) => spec_obj_get(fields@, key),
        _ => None,
    }
}

/// The string content of the field named `key`, if the field exists and
/// holds a string.
pub open spec fn spec_str_field(j: JsonValue, key: Seq<char>) -> Option<Seq<char>> {
    match spec_field(j, key) {
        Some(JsonValue::Str(s)) => Some(s@),
        _ => None,
    }
}

/// Two strings are equal exactly when their UTF-8 encodings are.
pub proof fn lemma_encode_utf8_injective(a: Seq<char>, b: Seq<char>)
    requires
        vstd::utf8::encode_utf8(a) == vstd::utf8::encode_utf8(b),
    ensures
        a == b,
{
    vstd::utf8::encode_utf8_decode_utf8(a);
    vstd::utf8::encode_utf8_decode_utf8(b);
}

/// String slice equality, decided byte by byte.
pub fn str_eq(a: &str, b: &str) -> (r: bool)
    ensures
        r == (a@ == b@),
{
    let ab = a.as_bytes();
    let bb = b.as_bytes();
    if ab.len() != bb.len() {
        proof {
            if a@ == b@ {
                assert(a.spec_bytes() == b.spec_bytes());
            }
        }
        return false;
    }
    let n = ab.len();
    let mut i: usize = 0;
    while i < n
        invariant
            n == ab@.len() == bb@.len(),
            i <= n,
            ab@ == a.spec_bytes(),
            bb@ == b.spec_bytes(),
            forall|k: int| 0 <= k < i ==> ab@[k] == bb@[k],
        decreases n - i,
    {
        if ab[i] != bb[i] {
            proof {
                if a@ == b@ {
                    assert(a.spec_bytes() == b.spec_bytes());
                }
            }
            return false;
        }
        i = i + 1;
    }
    proof {
        assert(ab@ =~= bb@);
        lemma_encode_utf8_injective(a@, b@);
    }
    true
}

/// The field of a JSON object named `key`, by linear scan: the first match
/// wins, as [`spec_obj_get`] says.
pub fn obj_get<'a>(fields: &'a Vec<(String, JsonValue)>, key: &str) -> (r: Option<&'a JsonValue>)
    ensures
        match r {
            Some(v) => spec_obj_get(fields@, key@) == Some(*v),
            None => spec_obj_get(fields@, key@) is None,
        },
{
    let n = fields.len();
    let mut i: usize = 0;
    proof {
        assert(fields@.skip(0) =~= fields@);
    }
    while i < n
        invariant
            n == fields@.len(),
            i <= n,
            spec_obj_get(fields@, key@) == spec_obj_get(fields@.skip(i as int), key@),
        decreases n - i,
    {
        proof {
            assert(fields@.skip(i as int)[0] == fields@[i as int]);
            assert(fields@.skip(i as int).drop_first() =~= fields@.skip(i + 1));
        }
        if str_eq(fields[i].0.as_str(), key) {
            return Some(&fields[i].1);
        }
        i = i + 1;
    }
    None
}

/// The field named `key` of `j`, or `None` when `j` is not an object or has
/// no such field.
pub fn json_field<'a>(j: &'a JsonValue, key: &str) -> (r: Option<&'a JsonValue>)
    ensures
        match r {
            Some(v) => spec_field(*j, key@) == Some(*v),
            None => spec_field(*j, key@) is None,
        },
{
    match j {
        JsonValue::Obj(fields) => obj_get(fields, key),
        _ => None,
    }
}

/// The value of an optional string field: `Some(None)` when the field is
/// missing or null, `Some(Some(s))` when it holds the string `s`, and `None`
/// when it holds a value of any other shape.
pub open spec fn spec_opt_str_field(j: JsonValue, key: Seq<char>) -> Option<Option<Seq<char>>> {
    match spec_field(j, key) {
        None => Some(None),
        Some(JsonValue::Null) => Some(None),
        Some(JsonValue::Str(s)) => Some(Some(s@)),
        Some(_) => None,
    }
}

/// The boolean content of the field named `key`, if the field exists and
/// holds a boolean.
pub open spec fn spec_bool_field(j: JsonValue, key: Seq<char>) -> Option<bool> {
    match spec_field(j, key) {
        Some(JsonValue::Bool(b)) => Some(b),
        _ => None,
    }
}

/// Every item of `items` is a string.
pub open spec fn all_strings(items: Seq<JsonValue>) -> bool {
    forall|i: int| 0 <= i < items.len() ==> items[i] is Str
}

/// `out` lists exactly the strings of `items`, in order.
pub open spec fn strings_match(items: Seq<JsonValue>, out: Seq<String>) -> bool {
    &&& out.len() == items.len()
    &&& forall|i: int| 0 <= i < items.len() ==> items[i] == JsonValue::Str(out[i])
}

/// A required string field, copied out of the document.
pub fn req_str_field(j: &JsonValue, key: &str) -> (r: Option<String>)
    ensures
        match r {
            Some(s) => spec_str_field(*j, key@) == Some(s@),
            None => spec_str_field(*j, key@) is None,
        },
{
    match json_field(j, key) {
        Some(JsonValue::Str(s)) => Some(s.clone()),
        _ => None,
    }
}

/// An optional string field: `Ok(None)` when missing or null, `Ok(Some(s))`
/// on a string, `Err(())` on any other shape.
pub fn opt_str_field(j: &JsonValue, key: &str) -> (r: Result<Option<String>, ()>)
    ensures
        match r {
            Ok(o) => spec_opt_str_field(*j, key@) == Some(o.deep_view()),
            Err(()) => spec_opt_str_field(*j, key@) is None,
        },
{
    match json_field(j, key) {
        None => Ok(None),
        Some(JsonValue::Null) => Ok(None),
        Some(JsonValue::Str(s)) => Ok(Some(s.clone())),
        Some(_) => Err(()),
    }
}

/// A required boolean field.
pub fn bool_field(j: &JsonValue, key: &str) -> (r: Option<bool>)
    ensures
        r == spec_bool_field(*j, key@),
{
    match json_field(j, key) {
        Some(JsonValue::Bool(b)) => Some(*b),
        _ => None,
    }
}

/// Copies a list of strings out of a JSON array; fails when any item is not
/// a string.
pub fn string_list(items: &Vec<JsonValue>) -> (r: Option<Vec<String>>)
    ensures
        match r {
            Some(out) => all_strings(items@) && strings_match(items@, out@),
            None => !all_strings(items@),
        },
{
    let n = items.len();
    let mut out: Vec<String> = Vec::new();
    let mut i: usize = 0;
    while i < n
        invariant
            n == items@.len(),
            i <= n,
            out@.len() == i,
            forall|k: int| 0 <= k < i ==> items@[k] == JsonValue::Str(out@[k]),
        decreases n - i,
    {
        match &items[i] {
            JsonValue::Str(s) => {
                out.push(s.clone());
            },
            _ => {
                return None;
            },
        }
        i = i + 1;
    }
    Some(out)
}

/// Removes the first field named `key` from `fields` and hands its value
/// back; `None` when no field has that name.
pub fn take_field(fields: &mut Vec<(String, JsonValue)>, key: &str) -> (r: Option<JsonValue>)
    ensures
        match r {
            Some(v) => spec_obj_get(old(fields)@, key@) == Some(v),
            None => spec_obj_get(old(fields)@, key@) is None,
        },
{
    let n = fields.len();
    let mut i: usize = 0;
    proof {
        assert(fields@.skip(0) =~= fields@);
    }
    while i < n
        invariant
            n == fields@.len(),
            i <= n,
            fields@ == old(fields)@,
            spec_obj_get(fields@, key@) == spec_obj_get(fields@.skip(i as int), key@),
        decreases n - i,
    {
        proof {
            assert(fields@.skip(i as int)[0] == fields@[i as int]);
            assert(fields@.skip(i as int).drop_first() =~= fields@.skip(i + 1));
        }
        if str_eq(fields[i].0.as_str(), key) {
            let pair = fields.remove(i);
            return Some(pair.1);
        }
        i = i + 1;
    }
    None
}

} // verus!
