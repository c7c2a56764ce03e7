use backend::errors::APIError;
use backend::middleware::auth::{authorize, extract_token, issue_token, Claims};

const SECRET: &str = "test-secret";
const FAR_FUTURE: usize = 4_000_000_000;

#[test]
fn bearer_token_is_extracted() {
    assert_eq!(extract_token(Some("Bearer abc.def.ghi")), Some("abc.def.ghi".to_string()));
    assert_eq!(extract_token(Some("Bearer ")), Some(String::new()));
    assert_eq!(extract_token(Some("Bearer héllo")), Some("héllo".to_string()));
}

#[test]
fn non_bearer_header_gives_no_token() {
    assert_eq!(extract_token(None), None);
    assert_eq!(extract_token(Some("bearer abc")), None);
    assert_eq!(extract_token(Some("Bearer")), None);
    assert_eq!(extract_token(Some("Basic abc")), None);
    assert_eq!(extract_token(Some("")), None);
    assert_eq!(extract_token(Some(" Bearer abc")), None);
}

#[test]
fn claims_json_text() {
    assert_eq!(Claims { sub: 1, exp: 2 }.to_json(), "{\"sub\":1,\"exp\":2}");
    assert_eq!(Claims { sub: -5, exp: 1700604800 }.to_json(), "{\"sub\":-5,\"exp\":1700604800}");
}

#[test]
fn issued_token_is_accepted_with_its_claims() {
    let claims = Claims { sub: 42, exp: FAR_FUTURE };
    let token = issue_token(&claims, SECRET);
    assert_eq!(token.split('.').count(), 3);
    assert_ne!(token, claims.to_json());
    let header = format!("Bearer {}", token);
    assert_eq!(authorize(Some(&header), SECRET), Ok("{\"sub\":42,\"exp\":4000000000}".to_string()));
}

#[test]
fn token_signed_with_another_secret_is_refused() {
    let token = issue_token(&Claims { sub: 42, exp: FAR_FUTURE }, "other");
    let header = format!("Bearer {}", token);
    assert_eq!(authorize(Some(&header), SECRET), Err(APIError::Unauthorized));
}

#[test]
fn expired_token_is_refused() {
    let token = issue_token(&Claims { sub: 42, exp: 1000 }, SECRET);
    let header = format!("Bearer {}", token);
    assert_eq!(authorize(Some(&header), SECRET), Err(APIError::Unauthorized));
}

#[test]
fn missing_or_malformed_authorization_is_refused() {
    assert_eq!(authorize(None, SECRET), Err(APIError::Unauthorized));
    assert_eq!(authorize(Some("Token abc"), SECRET), Err(APIError::Unauthorized));
    assert_eq!(authorize(Some("Bearer not-a-token"), SECRET), Err(APIError::Unauthorized));
}

#[test]
fn issued_token_has_standard_header() {
    let token = issue_token(&Claims { sub: 1, exp: 2 }, SECRET);
    let header = jsonwebtoken::decode_header(&token).expect("header");
    assert_eq!(header.alg, jsonwebtoken::Algorithm::HS256);
}
