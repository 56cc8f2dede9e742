use usso::b64tools::{b64_decode_uuid, b64_encode_uuid, b64_encode_uuid_strip, UuidValue};
use usso::json::JsonValue;
use usso::schemas::UserData;

fn obj(fields: Vec<(&str, JsonValue)>) -> JsonValue {
    JsonValue::Obj(fields.into_iter().map(|(k, v)| (k.to_string(), v)).collect())
}

fn s(text: &str) -> JsonValue {
    JsonValue::Str(text.to_string())
}

fn base_claims() -> Vec<(&'static str, JsonValue)> {
    vec![
        ("user_id", s("u")),
        ("token_type", s("access")),
        ("is_active", JsonValue::Bool(true)),
        ("workspace_ids", JsonValue::Arr(vec![])),
    ]
}

#[test]
fn all_claim_fields_are_read() {
    let doc = obj(vec![
        ("user_id", s("1c0f1e8c-9a2b-4d5e-8f10-213243546576")),
        ("workspace_id", s("w1")),
        ("workspace_ids", JsonValue::Arr(vec![s("w1"), s("w2")])),
        ("token_type", s("access")),
        ("email", s("a@b.example")),
        ("phone", JsonValue::Null),
        ("username", s("ann")),
        ("authentication_method", s("password")),
        ("is_active", JsonValue::Bool(true)),
        ("jti", s("j-1")),
        ("data", JsonValue::Arr(vec![JsonValue::Int(1), JsonValue::Int(2)])),
        ("token", s("raw")),
    ]);
    let u = UserData::from_json(doc).unwrap();
    assert_eq!(u.user_id, "1c0f1e8c-9a2b-4d5e-8f10-213243546576");
    assert_eq!(u.workspace_id.as_deref(), Some("w1"));
    assert_eq!(u.workspace_ids, vec!["w1".to_string(), "w2".to_string()]);
    assert_eq!(u.token_type, "access");
    assert_eq!(u.email.as_deref(), Some("a@b.example"));
    assert_eq!(u.phone, None);
    assert_eq!(u.username.as_deref(), Some("ann"));
    assert_eq!(u.authentication_method.as_deref(), Some("password"));
    assert!(u.is_active);
    assert_eq!(u.jti.as_deref(), Some("j-1"));
    assert_eq!(
        u.data,
        Some(JsonValue::Arr(vec![JsonValue::Int(1), JsonValue::Int(2)]))
    );
    assert_eq!(u.token.as_deref(), Some("raw"));
}

#[test]
fn missing_required_field_fails() {
    for dropped in ["user_id", "token_type", "is_active", "workspace_ids"] {
        let fields: Vec<(&str, JsonValue)> = base_claims()
            .into_iter()
            .filter(|(k, _)| *k != dropped)
            .collect();
        assert!(UserData::from_json(obj(fields)).is_none(), "{}", dropped);
    }
}

#[test]
fn wrong_shape_fails() {
    let mut fields = base_claims();
    fields[0] = ("user_id", JsonValue::Int(7));
    assert!(UserData::from_json(obj(fields)).is_none());

    let mut fields = base_claims();
    fields[3] = ("workspace_ids", JsonValue::Arr(vec![s("a"), JsonValue::Int(3)]));
    assert!(UserData::from_json(obj(fields)).is_none());

    let mut fields = base_claims();
    fields.push(("email", JsonValue::Int(5)));
    assert!(UserData::from_json(obj(fields)).is_none());

    assert!(UserData::from_json(JsonValue::Arr(vec![])).is_none());
}

#[test]
fn null_data_reads_as_none() {
    let mut fields = base_claims();
    fields.push(("data", JsonValue::Null));
    let u = UserData::from_json(obj(fields)).unwrap();
    assert!(u.data.is_none());
}

#[test]
fn uid_round_trip() {
    let bytes: Vec<u8> = (1u8..=16u8).collect();
    let uuid = UuidValue { bytes: bytes.clone() };
    let spelled = uuid.hyphenated();
    assert_eq!(spelled, "01020304-0506-0708-090a-0b0c0d0e0f10");
    let mut fields = base_claims();
    fields[0] = ("user_id", s(&spelled));
    let u = UserData::from_json(obj(fields)).unwrap();
    let back = u.uid().unwrap();
    assert_eq!(back.bytes, bytes);
}

#[test]
fn malformed_uid_fails() {
    let mut fields = base_claims();
    fields[0] = ("user_id", s("not-a-uuid"));
    let u = UserData::from_json(obj(fields)).unwrap();
    assert!(u.uid().is_none());
}

#[test]
fn b64_uuid_round_trip() {
    let bytes: Vec<u8> = vec![
        0xa1, 0xa2, 0xa3, 0xa4, 0xb1, 0xb2, 0xc1, 0xc2, 0xd1, 0xd2, 0xd3, 0xd4, 0xd5, 0xd6, 0xd7,
        0xd8,
    ];
    let uuid = UuidValue { bytes: bytes.clone() };
    let encoded = b64_encode_uuid(&uuid);
    assert_eq!(encoded, "oaKjpLGywcLR0tPU1dbX2A==");
    let decoded = b64_decode_uuid(&encoded).unwrap();
    assert_eq!(decoded.bytes, bytes);
}

#[test]
fn b64_uuid_strip_drops_padding() {
    let bytes: Vec<u8> = vec![
        0xa1, 0xa2, 0xa3, 0xa4, 0xb1, 0xb2, 0xc1, 0xc2, 0xd1, 0xd2, 0xd3, 0xd4, 0xd5, 0xd6, 0xd7,
        0xd8,
    ];
    let uuid = UuidValue { bytes };
    assert_eq!(b64_encode_uuid_strip(&uuid), "oaKjpLGywcLR0tPU1dbX2A");
}

#[test]
fn b64_uuid_rejects_bad_input() {
    assert!(b64_decode_uuid("!!!").is_err());
    assert!(b64_decode_uuid("YWJj").is_err());
}
