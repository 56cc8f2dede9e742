use usso::exceptions::{JwksError, JwtError, USSOError};

#[test]
fn usso_error_messages() {
    assert_eq!(USSOError::InvalidSignature.message(), "Invalid signature");
    assert_eq!(USSOError::InvalidToken.message(), "Invalid token");
    assert_eq!(USSOError::ExpiredToken.message(), "Expired token");
    assert_eq!(USSOError::Unauthorized.message(), "Unauthorized");
    assert_eq!(USSOError::InvalidTokenType.message(), "Invalid token type");
    assert_eq!(USSOError::Other("boom".to_string()).message(), "boom");
}

#[test]
fn jwks_error_messages() {
    assert_eq!(JwksError::NotInitialized.message(), "JWKS not initialized");
    assert_eq!(JwksError::InvalidJwksData("bad".to_string()).message(), "bad");
}

#[test]
fn jwt_error_carries_detail() {
    let e = JwtError::DecodingError("failed to decode base64".to_string());
    assert!(matches!(e, JwtError::DecodingError(m) if m == "failed to decode base64"));
}
