use dragon::{
    authenticate, authenticate_at, check_login, create_token_at, generate_totp_secret,
    hash_password, totp_code_at, AuthError, TokenConfig, UserId,
};

const SECRET: &[u8] = b"process-wide-test-secret";

#[test]
fn missing_header_is_its_own_failure() {
    assert!(matches!(
        authenticate_at(None, 0, SECRET),
        Err(AuthError::MissingOrMalformedHeader)
    ));
    assert!(matches!(
        authenticate(None, SECRET),
        Err(AuthError::MissingOrMalformedHeader)
    ));
}

#[test]
fn other_schemes_and_shapes_are_rejected() {
    for header in ["Basic dXNlcjpwdw==", "bearer x", "Bearer", "", "Beare r x"] {
        assert!(matches!(
            authenticate_at(Some(header), 0, SECRET),
            Err(AuthError::MissingOrMalformedHeader)
        ));
    }
}

#[test]
fn bearer_token_authenticates_to_its_subject() {
    let id = UserId { value: 0xabcdef };
    let token = create_token_at(&id, &TokenConfig::default(), 1_000, SECRET).unwrap();
    let header = format!("Bearer {}", token);
    let user = authenticate_at(Some(&header), 2_000, SECRET).unwrap();
    assert_eq!(user.user_id.value, id.value);
}

#[test]
fn expired_bearer_token_reports_expiry() {
    let id = UserId { value: 0xabcdef };
    let token = create_token_at(&id, &TokenConfig::default(), 1_000, SECRET).unwrap();
    let header = format!("Bearer {}", token);
    assert!(matches!(
        authenticate_at(Some(&header), 1_000 + 86_400, SECRET),
        Err(AuthError::ExpiredToken)
    ));
}

#[test]
fn garbage_bearer_token_is_invalid() {
    assert!(matches!(
        authenticate_at(Some("Bearer junk"), 0, SECRET),
        Err(AuthError::InvalidToken)
    ));
}

#[test]
fn login_without_second_factor_accepts_the_right_password() {
    let hash = hash_password("pw").unwrap();
    assert_eq!(check_login("pw", &hash, false, None, None, 0), Ok(()));
}

#[test]
fn login_rejects_the_wrong_password() {
    let hash = hash_password("pw").unwrap();
    assert_eq!(
        check_login("other", &hash, false, None, None, 0),
        Err(AuthError::InvalidCredentials)
    );
}

#[test]
fn login_on_malformed_stored_hash_is_structural() {
    assert_eq!(
        check_login("pw", "garbage", false, None, None, 0),
        Err(AuthError::MalformedSecretOrCode)
    );
}

#[test]
fn enabled_second_factor_without_stored_secret_is_internal() {
    let hash = hash_password("pw").unwrap();
    assert_eq!(
        check_login("pw", &hash, true, None, Some("123456"), 0),
        Err(AuthError::Internal)
    );
}

#[test]
fn enabled_second_factor_requires_a_code() {
    let hash = hash_password("pw").unwrap();
    let (secret, _) = generate_totp_secret("app", "acct").unwrap();
    assert_eq!(
        check_login("pw", &hash, true, Some(&secret), None, 59),
        Err(AuthError::InvalidCredentials)
    );
}

#[test]
fn enabled_second_factor_accepts_only_the_current_window_code() {
    let hash = hash_password("pw").unwrap();
    let (secret, _) = generate_totp_secret("app", "acct").unwrap();
    let code = totp_code_at(&secret, 59, 30, 6).unwrap();
    assert_eq!(
        check_login("pw", &hash, true, Some(&secret), Some(&code), 59),
        Ok(())
    );
    assert_eq!(
        check_login("pw", &hash, true, Some(&secret), Some(&code), 60),
        Err(AuthError::InvalidCredentials)
    );
}

#[test]
fn error_messages_are_short_and_generic() {
    assert_eq!(AuthError::Internal.message(), "internal server error");
    assert_eq!(AuthError::ExpiredToken.message(), "token expired");
    assert_eq!(AuthError::InvalidToken.message(), "invalid token");
    assert_eq!(
        AuthError::MissingOrMalformedHeader.message(),
        "missing or malformed authorization header"
    );
    assert_eq!(
        AuthError::InvalidCredentials.message(),
        "invalid credentials"
    );
    assert_eq!(
        AuthError::MalformedSecretOrCode.message(),
        "malformed secret or code"
    );
}
