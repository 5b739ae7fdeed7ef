use dragon::{create_token, create_token_at, validate_token, validate_token_at, AuthError, TokenConfig, UserId};

const SECRET: &[u8] = b"process-wide-test-secret";

fn config() -> TokenConfig {
    TokenConfig::default()
}

#[test]
fn default_config_is_a_day_under_the_fixed_issuer() {
    let cfg = config();
    assert_eq!(cfg.expires_in, 86400);
    assert_eq!(cfg.issuer, "dragonfruit");
}

#[test]
fn token_validates_to_its_subject_before_expiry() {
    let id = UserId { value: 0x0123456789abcdef0123456789abcdef };
    let token = create_token_at(&id, &config(), 1_000_000, SECRET).unwrap();
    let got = validate_token_at(&token, 1_000_000 + 86399, SECRET).unwrap();
    assert_eq!(got.value, id.value);
}

#[test]
fn token_expires_exactly_at_issue_time_plus_lifetime() {
    let id = UserId { value: 42 };
    let token = create_token_at(&id, &config(), 1_000_000, SECRET).unwrap();
    assert_eq!(
        validate_token_at(&token, 1_000_000 + 86400, SECRET),
        Err(AuthError::ExpiredToken)
    );
    assert_eq!(
        validate_token_at(&token, 2_000_000_000, SECRET),
        Err(AuthError::ExpiredToken)
    );
}

#[test]
fn tampered_signature_is_invalid_not_expired() {
    let id = UserId { value: 42 };
    let token = create_token_at(&id, &config(), 1_000_000, SECRET).unwrap();
    let mut tampered = token.clone();
    let last = tampered.pop().unwrap();
    tampered.push(if last == 'A' { 'B' } else { 'A' });
    assert_eq!(
        validate_token_at(&tampered, 1_000_000, SECRET),
        Err(AuthError::InvalidToken)
    );
}

#[test]
fn token_under_another_key_is_invalid() {
    let id = UserId { value: 42 };
    let token = create_token_at(&id, &config(), 1_000_000, SECRET).unwrap();
    assert_eq!(
        validate_token_at(&token, 1_000_000, b"another secret"),
        Err(AuthError::InvalidToken)
    );
}

#[test]
fn garbage_is_invalid() {
    assert_eq!(
        validate_token_at("not.a.token", 0, SECRET),
        Err(AuthError::InvalidToken)
    );
    assert_eq!(
        validate_token_at("", 0, SECRET),
        Err(AuthError::InvalidToken)
    );
}

fn foreign_token(sub: serde_json::Value, with_exp: bool) -> String {
    let mut payload = serde_json::Map::new();
    payload.insert("sub".to_string(), sub);
    payload.insert(
        "iss".to_string(),
        serde_json::Value::String("dragonfruit".to_string()),
    );
    payload.insert("iat".to_string(), serde_json::Value::from(0i64));
    if with_exp {
        payload.insert("exp".to_string(), serde_json::Value::from(i64::MAX));
    }
    jsonwebtoken::encode(
        &jsonwebtoken::Header::new(jsonwebtoken::Algorithm::HS256),
        &serde_json::Value::Object(payload),
        &jsonwebtoken::EncodingKey::from_secret(SECRET),
    )
    .unwrap()
}

#[test]
fn token_under_another_algorithm_is_invalid() {
    let mut payload = serde_json::Map::new();
    payload.insert(
        "sub".to_string(),
        serde_json::Value::String("00000000-0000-0000-0000-000000000000".to_string()),
    );
    payload.insert(
        "iss".to_string(),
        serde_json::Value::String("dragonfruit".to_string()),
    );
    payload.insert("iat".to_string(), serde_json::Value::from(0i64));
    payload.insert("exp".to_string(), serde_json::Value::from(i64::MAX));
    let token = jsonwebtoken::encode(
        &jsonwebtoken::Header::new(jsonwebtoken::Algorithm::HS384),
        &serde_json::Value::Object(payload),
        &jsonwebtoken::EncodingKey::from_secret(SECRET),
    )
    .unwrap();
    assert_eq!(
        validate_token_at(&token, 1_000, SECRET),
        Err(AuthError::InvalidToken)
    );
}

#[test]
fn well_signed_token_with_corrupt_subject_is_internal_fault() {
    let token = foreign_token(
        serde_json::Value::String("not-an-identity".to_string()),
        true,
    );
    assert_eq!(
        validate_token_at(&token, 1_000, SECRET),
        Err(AuthError::Internal)
    );
}

#[test]
fn well_signed_token_without_expiry_is_invalid() {
    let token = foreign_token(
        serde_json::Value::String("00000000-0000-0000-0000-000000000000".to_string()),
        false,
    );
    assert_eq!(
        validate_token_at(&token, 1_000, SECRET),
        Err(AuthError::InvalidToken)
    );
}

#[test]
fn clock_based_issue_and_validate_round_trip() {
    let id = UserId { value: 7 };
    let token = create_token(&id, &config(), SECRET).unwrap();
    let got = validate_token(&token, SECRET).unwrap();
    assert_eq!(got.value, 7);
}
