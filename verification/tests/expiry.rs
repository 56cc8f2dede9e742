use base64::Engine;
use usso::exceptions::USSOError;
use usso::resolver::{is_expired, is_expired_at};

fn seg(text: &str) -> String {
    base64::engine::general_purpose::URL_SAFE_NO_PAD.encode(text)
}

fn unsigned_token(payload: &str) -> String {
    format!("{}.{}.sig", seg(r#"{"alg":"HS256"}"#), seg(payload))
}

#[test]
fn past_exp_is_expired() {
    let token = unsigned_token(r#"{"exp":100}"#);
    assert_eq!(is_expired_at(&token, 200), Ok(true));
    assert_eq!(is_expired(&token), Ok(true));
}

#[test]
fn future_exp_is_not_expired() {
    let token = unsigned_token(r#"{"exp":300}"#);
    assert_eq!(is_expired_at(&token, 200), Ok(false));
    let far_future = unsigned_token(r#"{"exp":4102444800}"#);
    assert_eq!(is_expired(&far_future), Ok(false));
}

#[test]
fn exp_equal_to_now_is_not_expired() {
    let token = unsigned_token(r#"{"exp":200}"#);
    assert_eq!(is_expired_at(&token, 200), Ok(false));
}

#[test]
fn missing_exp_defaults_to_not_expired() {
    let token = unsigned_token(r#"{"sub":"x"}"#);
    assert_eq!(is_expired_at(&token, 200), Ok(false));
    assert_eq!(is_expired(&token), Ok(false));
}

#[test]
fn non_integer_exp_is_treated_as_missing() {
    let token = unsigned_token(r#"{"exp":"soon"}"#);
    assert_eq!(is_expired_at(&token, 200), Ok(false));
}

#[test]
fn undecodable_payload_is_an_error() {
    assert_eq!(is_expired_at("a.b", 200), Err(USSOError::InvalidToken));
    let bad = format!("{}.{}.sig", seg(r#"{"alg":"HS256"}"#), "!!!");
    assert_eq!(is_expired_at(&bad, 200), Err(USSOError::InvalidToken));
    let not_object = unsigned_token("[1,2]");
    assert_eq!(is_expired_at(&not_object, 200), Err(USSOError::InvalidToken));
}
