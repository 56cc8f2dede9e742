use base64::Engine;
use usso::exceptions::JwtError;
use usso::schemas::JwtHeader;

fn seg(text: &str) -> String {
    base64::engine::general_purpose::URL_SAFE_NO_PAD.encode(text)
}

#[test]
fn header_is_parsed() {
    let token = format!("{}.{}.sig", seg(r#"{"alg":"RS256","typ":"JWT","kid":"k1"}"#), seg("{}"));
    let header = JwtHeader::from_token(&token).unwrap();
    assert_eq!(header.alg, "RS256");
    assert_eq!(header.typ.as_deref(), Some("JWT"));
    assert_eq!(header.kid.as_deref(), Some("k1"));
    assert_eq!(header.host, None);
}

#[test]
fn optional_fields_may_be_absent_or_null() {
    let token = format!("{}.{}.sig", seg(r#"{"alg":"HS256","kid":null}"#), seg("{}"));
    let header = JwtHeader::from_token(&token).unwrap();
    assert_eq!(header.alg, "HS256");
    assert_eq!(header.typ, None);
    assert_eq!(header.kid, None);
}

#[test]
fn wrong_segment_count_is_malformed() {
    assert!(matches!(
        JwtHeader::from_token("only-one-segment"),
        Err(JwtError::InvalidFormat)
    ));
    assert!(matches!(
        JwtHeader::from_token("two.segments"),
        Err(JwtError::InvalidFormat)
    ));
    assert!(matches!(
        JwtHeader::from_token("a.b.c.d"),
        Err(JwtError::InvalidFormat)
    ));
}

#[test]
fn invalid_base64_is_decoding_error() {
    assert!(matches!(
        JwtHeader::from_token("!!!.payload.sig"),
        Err(JwtError::DecodingError(_))
    ));
}

#[test]
fn invalid_json_is_decoding_error() {
    let token = format!("{}.{}.sig", seg("not json"), seg("{}"));
    assert!(matches!(
        JwtHeader::from_token(&token),
        Err(JwtError::DecodingError(_))
    ));
}

#[test]
fn missing_alg_is_decoding_error() {
    let token = format!("{}.{}.sig", seg(r#"{"typ":"JWT"}"#), seg("{}"));
    assert!(matches!(
        JwtHeader::from_token(&token),
        Err(JwtError::DecodingError(_))
    ));
}
