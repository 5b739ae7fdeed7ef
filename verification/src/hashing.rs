use vstd::prelude::*;
use vstd::utf8::encode_utf8;

use argon2::{Argon2, PasswordHasher, PasswordVerifier, password_hash};

use crate::errors::AuthError;

verus! {

/// The longest password the memory-hard hasher accepts, in bytes.
pub const MAX_PASSWORD_LEN: usize = 0xFFFF_FFFF;

/// Whether the memory-hard hasher, handed `stored` as a stored hash string,
/// reaches a definite match-or-mismatch answer for any candidate password:
/// the string parses as a PHC string whose algorithm, version, parameters and
/// salt the hasher accepts.
pub uninterp spec fn phc_wellformed(stored: Seq<char>) -> bool;

/// Whether recomputing the memory-hard hash of `password` under the
/// parameters and salt embedded in `stored` reproduces the digest embedded
/// there. Deterministic in its two arguments.
pub uninterp spec fn argon2_matches(password: Seq<u8>, stored: Seq<char>) -> bool;

/// The key material derived from `material` and `salt`: the bytes of the PHC
/// string of the memory-hard hash of `material` under the default parameters
/// and the given salt. Deterministic in its two arguments.
pub uninterp spec fn argon2_key(material: Seq<u8>, salt: Seq<u8>) -> Seq<u8>;

/// What password verification answers: a definite boolean wherever the stored
/// string is acceptable to the hasher, and a structural error otherwise.
pub open spec fn verify_outcome(password: Seq<u8>, stored: Seq<char>) -> Result<
    bool,
    AuthError,
> {
    if phc_wellformed(stored) {
        Ok(argon2_matches(password, stored))
    } else {
        Err(AuthError::MalformedSecretOrCode)
    }
}

/// Relies on argon2::Argon2::hash_password (trait PasswordHasher): hashes with
/// the default parameters and a fresh random 16-byte salt, and yields a PHC
/// string that the same hasher's verify_password accepts for the same
/// password; it fails only on salt-generation failure.
#[verifier::external_body]
fn argon2_hash_random(password: &[u8]) -> (r: Result<String, AuthError>)
    requires
        password@.len() <= 0xFFFF_FFFF,
    ensures
        r is Ok ==> phc_wellformed(r->Ok_0@) && argon2_matches(password@, r->Ok_0@),
        r is Err ==> r->Err_0 == AuthError::Internal,
{
    match Argon2::default().hash_password(password) {
        Ok(h) => Ok(h.to_string()),
        Err(_) => Err(AuthError::Internal),
    }
}

/// Relies on argon2::Argon2::verify_password (trait PasswordVerifier<str>):
/// it parses the stored PHC string, recomputes the hash under the embedded
/// parameters and salt, and compares digests in constant time; a mismatch or
/// a string without salt or digest is Error::PasswordInvalid, every other
/// failure is structural.
#[verifier::external_body]
fn argon2_check(password: &[u8], stored: &str) -> (r: Result<bool, AuthError>)
    requires
        password@.len() <= 0xFFFF_FFFF,
    ensures
        r is Ok <==> phc_wellformed(stored@),
        r is Ok ==> r->Ok_0 == argon2_matches(password@, stored@),
        r is Err ==> r->Err_0 == AuthError::MalformedSecretOrCode,
{
    match Argon2::default().verify_password(password, stored) {
        Ok(()) => Ok(true),
        Err(password_hash::Error::PasswordInvalid) => Ok(false),
        Err(_) => Err(AuthError::MalformedSecretOrCode),
    }
}

/// Relies on argon2::Argon2::hash_password_with_salt (trait PasswordHasher):
/// deterministic in material and salt, it accepts exactly the salts of 8 to
/// 48 bytes, and its PHC string is never empty.
#[verifier::external_body]
fn argon2_derive(material: &[u8], salt: &[u8]) -> (r: Result<Vec<u8>, AuthError>)
    requires
        material@.len() <= 0xFFFF_FFFF,
    ensures
        r is Ok <==> 8 <= salt@.len() <= 48,
        r is Ok ==> r->Ok_0@ == argon2_key(material@, salt@) && r->Ok_0@.len() > 0,
        r is Err ==> r->Err_0 == AuthError::MalformedSecretOrCode,
{
    match Argon2::default().hash_password_with_salt(material, salt) {
        Ok(h) => Ok(h.to_string().into_bytes()),
        Err(_) => Err(AuthError::MalformedSecretOrCode),
    }
}

/// Hashes a password under a fresh cryptographically random salt and the
/// default memory-hard parameters into a self-describing stored hash string.
/// Fails only on an internal entropy or encoding fault.
pub fn hash_password(password: &str) -> (r: Result<String, AuthError>)
    ensures
        r is Ok ==> phc_wellformed(r->Ok_0@) && argon2_matches(
            encode_utf8(password@),
            r->Ok_0@,
        ),
        r is Err ==> r->Err_0 == AuthError::Internal,
{
    let b = password.as_bytes();
    if b.len() > MAX_PASSWORD_LEN {
        return Err(AuthError::Internal);
    }
    argon2_hash_random(b)
}

/// Verifies a password against a stored hash string: recomputes under the
/// embedded parameters and salt and compares. A mismatch is the answer
/// `Ok(false)`, never an error; the only error is a structurally malformed
/// stored string.
pub fn verify_password(password: &str, hash: &str) -> (r: Result<bool, AuthError>)
    requires
        password@.len() <= 0x3FFF_FFFF,
    ensures
        r == verify_outcome(encode_utf8(password@), hash@),
{
    proof {
        crate::strutil::lemma_encode_utf8_len(password@);
    }
    argon2_check(password.as_bytes(), hash)
}

/// Derives symmetric key material deterministically from `material` and a
/// caller-supplied salt of 8 to 48 bytes, through the same memory-hard
/// primitive that hashes passwords.
pub fn derive_key(material: &[u8], salt: &[u8]) -> (r: Result<Vec<u8>, AuthError>)
    requires
        material@.len() <= 0xFFFF_FFFF,
    ensures
        r is Ok <==> 8 <= salt@.len() <= 48,
        r is Ok ==> r->Ok_0@ == argon2_key(material@, salt@) && r->Ok_0@.len() > 0,
        r is Err ==> r->Err_0 == AuthError::MalformedSecretOrCode,
{
    argon2_derive(material, salt)
}

/// Law: a password verifies against a hash computed from it. `hash_password`
/// yields for the password bytes `p` a stored string `h` with
/// `phc_wellformed(h)` and `argon2_matches(p, h)`; against any such string,
/// verification of the same password answers exactly `Ok(true)`.
pub proof fn lemma_hash_verify_roundtrip(p: Seq<u8>, h: Seq<char>)
    requires
        phc_wellformed(h),
        argon2_matches(p, h),
    ensures
        verify_outcome(p, h) == Ok::<bool, AuthError>(true),
{
}

} // verus!
