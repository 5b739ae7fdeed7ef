use dragon::{derive_key, hash_password, verify_password, AuthError};

#[test]
fn hash_then_verify_accepts_same_password() {
    let hash = hash_password("correct horse battery staple").unwrap();
    assert_eq!(
        verify_password("correct horse battery staple", &hash).unwrap(),
        true
    );
}

#[test]
fn hash_then_verify_rejects_other_password() {
    let hash = hash_password("correct horse battery staple").unwrap();
    assert_eq!(verify_password("incorrect horse", &hash).unwrap(), false);
}

#[test]
fn verify_empty_password_against_its_own_hash() {
    let hash = hash_password("").unwrap();
    assert_eq!(verify_password("", &hash).unwrap(), true);
    assert_eq!(verify_password("x", &hash).unwrap(), false);
}

#[test]
fn hash_is_self_describing_phc_string() {
    let hash = hash_password("pw").unwrap();
    assert!(hash.starts_with("$argon2"));
    assert!(hash.split('$').count() >= 5);
}

#[test]
fn two_hashes_of_one_password_differ() {
    let first = hash_password("same password").unwrap();
    let second = hash_password("same password").unwrap();
    assert_ne!(first, second);
}

#[test]
fn verify_on_malformed_hash_is_structural_error() {
    let r = verify_password("pw", "not a hash at all");
    assert_eq!(r, Err(AuthError::MalformedSecretOrCode));
}

#[test]
fn verify_mismatch_is_false_not_error() {
    let hash = hash_password("a").unwrap();
    let r = verify_password("b", &hash);
    assert_eq!(r, Ok(false));
}

#[test]
fn derive_key_is_deterministic_in_material_and_salt() {
    let salt = [7u8; 16];
    let k1 = derive_key(b"material", &salt).unwrap();
    let k2 = derive_key(b"material", &salt).unwrap();
    assert_eq!(k1, k2);
    assert!(!k1.is_empty());
}

#[test]
fn derive_key_differs_for_other_material_or_salt() {
    let salt = [7u8; 16];
    let other_salt = [8u8; 16];
    let k1 = derive_key(b"material", &salt).unwrap();
    let k2 = derive_key(b"other material", &salt).unwrap();
    let k3 = derive_key(b"material", &other_salt).unwrap();
    assert_ne!(k1, k2);
    assert_ne!(k1, k3);
}

#[test]
fn derive_key_rejects_salt_outside_bounds() {
    assert_eq!(
        derive_key(b"material", &[1u8; 7]),
        Err(AuthError::MalformedSecretOrCode)
    );
    assert_eq!(
        derive_key(b"material", &[1u8; 49]),
        Err(AuthError::MalformedSecretOrCode)
    );
    assert!(derive_key(b"material", &[1u8; 8]).is_ok());
    assert!(derive_key(b"material", &[1u8; 48]).is_ok());
}
