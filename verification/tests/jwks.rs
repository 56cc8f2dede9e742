use usso::exceptions::JwksError;
use usso::jwks::{get_jwk_keys, init_jwks_sync, jwks_from_response, JwksCache};

const GOOD_BODY: &str = r#"{"keys":[{"kid":"k1","kty":"RSA","alg":"RS256","use":"sig","n":"abc","e":"AQAB"}]}"#;

#[test]
fn fetch_jwks() {
    let mut cache = JwksCache::new();
    init_jwks_sync(&mut cache, 200, GOOD_BODY).expect("Can't init JWKS");
    let jwks = get_jwk_keys(&cache).expect("Can't get JWKS");
    assert!(!jwks.keys.is_empty());
    assert!(jwks.keys.len() > 0);
}

#[test]
fn fetched_key_fields() {
    let jwks = jwks_from_response(200, GOOD_BODY).unwrap();
    assert_eq!(jwks.keys.len(), 1);
    assert_eq!(jwks.keys[0].kid, "k1");
    assert_eq!(jwks.keys[0].kty, "RSA");
    assert_eq!(jwks.keys[0].alg, "RS256");
    assert_eq!(jwks.keys[0].key_use, "sig");
    assert_eq!(jwks.keys[0].n, "abc");
    assert_eq!(jwks.keys[0].e, "AQAB");
}

#[test]
fn empty_keys_rejected() {
    let r = jwks_from_response(200, r#"{"keys":[]}"#);
    assert!(matches!(r, Err(JwksError::InvalidJwksData(_))));
}

#[test]
fn non_2xx_rejected() {
    let r = jwks_from_response(404, GOOD_BODY);
    assert!(matches!(r, Err(JwksError::HttpError(404))));
    let r = jwks_from_response(500, GOOD_BODY);
    assert!(matches!(r, Err(JwksError::HttpError(500))));
}

#[test]
fn invalid_body_rejected() {
    assert!(matches!(
        jwks_from_response(200, "not json"),
        Err(JwksError::InvalidJwksData(_))
    ));
    assert!(matches!(
        jwks_from_response(200, r#"{"nokeys":true}"#),
        Err(JwksError::InvalidJwksData(_))
    ));
    assert!(matches!(
        jwks_from_response(200, r#"{"keys":[{"kid":"k1"}]}"#),
        Err(JwksError::InvalidJwksData(_))
    ));
}

#[test]
fn init_twice_keeps_first_value() {
    let mut cache = JwksCache::new();
    init_jwks_sync(&mut cache, 200, GOOD_BODY).unwrap();
    let second = r#"{"keys":[{"kid":"k2","kty":"RSA","alg":"RS256","use":"sig","n":"zzz","e":"AQAB"}]}"#;
    let r = init_jwks_sync(&mut cache, 200, second);
    assert!(matches!(r, Err(JwksError::InvalidJwksData(_))));
    let jwks = get_jwk_keys(&cache).unwrap();
    assert_eq!(jwks.keys[0].kid, "k1");
}

#[test]
fn uninitialized_cache_read_fails() {
    let cache = JwksCache::new();
    assert!(matches!(get_jwk_keys(&cache), Err(JwksError::NotInitialized)));
}

#[test]
fn failed_fetch_leaves_cache_empty() {
    let mut cache = JwksCache::new();
    let r = init_jwks_sync(&mut cache, 503, GOOD_BODY);
    assert!(matches!(r, Err(JwksError::HttpError(503))));
    assert!(matches!(get_jwk_keys(&cache), Err(JwksError::NotInitialized)));
}
