//! Reversible protection of stored credential secrets: key material derived
//! per identity from the identity and the process-wide secret under a fresh
//! random salt, combined with the plaintext as a cycled keystream. The stored
//! form is `"{salt}:{ciphertext}"` with both fields in padded standard
//! base64; a store whose salt field uses any other encoding is rejected as a
//! structural error.

use vstd::prelude::*;
use vstd::utf8::{decode_utf8, encode_utf8, valid_utf8};

use base64::Engine;

use crate::ambient::fill_random;
use crate::errors::AuthError;
use crate::hashing::{argon2_key, derive_key};
use crate::ids::{UserId, uuid_chars};
use crate::strutil::{push_char, zero_vec};

verus! {

/// The standard base64 rendering (alphabet `A`-`Z`, `a`-`z`, `0`-`9`, `+`,
/// `/`, padded with `=`) of a byte sequence. Deterministic in its argument.
pub uninterp spec fn b64_encoding(b: Seq<u8>) -> Seq<char>;

/// What standard base64 decoding yields: the bytes, or nothing where the
/// input is no valid base64 text. Deterministic in its argument.
pub uninterp spec fn b64_decoding(s: Seq<char>) -> Option<Seq<u8>>;

/// Relies on base64::engine::general_purpose::STANDARD.encode: it renders the
/// bytes in the standard alphabet with `=` padding (four characters for every
/// started group of three bytes), so no output character is a colon, and its
/// own decode inverts it.
#[verifier::external_body]
fn b64_encode(b: &[u8]) -> (r: String)
    ensures
        r@ == b64_encoding(b@),
        r@.len() == 4 * ((b@.len() + 2) / 3),
        forall|i: int| 0 <= i < r@.len() ==> r@[i] != ':',
        b64_decoding(r@) == Some(b@),
{
    base64::engine::general_purpose::STANDARD.encode(b)
}

/// Relies on base64::engine::general_purpose::STANDARD.decode: it yields the
/// encoded bytes exactly on valid standard base64 text and an error
/// otherwise.
#[verifier::external_body]
fn b64_decode(s: &str) -> (r: Option<Vec<u8>>)
    ensures
        r is Some <==> b64_decoding(s@) is Some,
        r is Some ==> Some(r->0@) == b64_decoding(s@),
{
    base64::engine::general_purpose::STANDARD.decode(s).ok()
}

/// Relies on String::from_utf8: it succeeds exactly on valid UTF-8 input and
/// yields the text whose encoding the input is.
#[verifier::external_body]
fn bytes_to_string(b: Vec<u8>) -> (r: Option<String>)
    ensures
        r is Some <==> valid_utf8(b@),
        r is Some ==> r->0@ == decode_utf8(b@),
{
    String::from_utf8(b).ok()
}

/// `data` combined byte for byte with the key stream that cycles `key`.
pub open spec fn xor_stream(data: Seq<u8>, key: Seq<u8>) -> Seq<u8>
    recommends
        key.len() > 0,
{
    Seq::new(data.len(), |i| data[i] ^ key[i % (key.len() as int)])
}

/// Law: the keystream combination is an involution; applying it twice with
/// the same key restores the data.
pub proof fn lemma_xor_stream_involution(data: Seq<u8>, key: Seq<u8>)
    requires
        key.len() > 0,
    ensures
        xor_stream(xor_stream(data, key), key) =~= data,
{
    assert forall|i: int| 0 <= i < data.len() implies xor_stream(xor_stream(data, key), key)[i]
        == data[i] by {
        let k = key[i % (key.len() as int)];
        let d = data[i];
        assert((d ^ k) ^ k == d) by (bit_vector);
    }
}

fn xor_with_key(data: &[u8], key: &[u8]) -> (r: Vec<u8>)
    requires
        key@.len() > 0,
    ensures
        r@ == xor_stream(data@, key@),
{
    let mut out: Vec<u8> = Vec::new();
    let mut i: usize = 0;
    while i < data.len()
        invariant
            key@.len() > 0,
            0 <= i <= data@.len(),
            out@ =~= xor_stream(data@, key@).take(i as int),
        decreases data@.len() - i,
    {
        out.push(data[i] ^ key[i % key.len()]);
        i = i + 1;
        assert(out@ =~= xor_stream(data@, key@).take(i as int));
    }
    assert(out@ =~= xor_stream(data@, key@));
    out
}

/// Splitting at the separating colon: the part before and the part after,
/// defined exactly where the text holds one colon and no more.
pub open spec fn colon_split(s: Seq<char>) -> Option<(Seq<char>, Seq<char>)> {
    if exists|k: int|
        0 <= k < s.len() && s[k] == ':' && (forall|j: int|
            0 <= j < s.len() && j != k ==> s[j] != ':') {
        let k = choose|k: int|
            0 <= k < s.len() && s[k] == ':' && (forall|j: int|
                0 <= j < s.len() && j != k ==> s[j] != ':');
        Some((s.take(k), s.skip(k + 1)))
    } else {
        None
    }
}

/// Law: a text assembled from two colon-free parts around one colon splits
/// back into exactly those parts.
pub proof fn lemma_colon_split_of_concat(a: Seq<char>, b: Seq<char>)
    requires
        forall|i: int| 0 <= i < a.len() ==> a[i] != ':',
        forall|i: int| 0 <= i < b.len() ==> b[i] != ':',
    ensures
        colon_split(a + seq![':'] + b) == Some((a, b)),
{
    let s = a + seq![':'] + b;
    let ka = a.len() as int;
    assert(s[ka] == ':');
    assert(forall|j: int| 0 <= j < s.len() && j != ka ==> s[j] != ':');
    let k = choose|k: int|
        0 <= k < s.len() && s[k] == ':' && (forall|j: int|
            0 <= j < s.len() && j != k ==> s[j] != ':');
    assert(k == ka);
    assert(s.take(ka) =~= a);
    assert(s.skip(ka + 1) =~= b);
}

/// The input to per-user key derivation: the identity's canonical rendering,
/// a colon, and the process-wide secret.
pub open spec fn key_material(uid: u128, secret: Seq<char>) -> Seq<char> {
    uuid_chars(uid) + seq![':'] + secret
}

/// What decryption of a stored encrypted secret yields, given the identity
/// and the process-wide secret: the plaintext exactly where the text splits
/// at one colon into a base64 salt of 8 to 48 bytes and a base64 ciphertext
/// whose keystream combination is valid text; a structural error where the
/// shape is wrong, and an internal error where the output is no valid text.
pub open spec fn decrypt_outcome(enc: Seq<char>, uid: u128, secret: Seq<char>) -> Result<
    Seq<char>,
    AuthError,
> {
    match colon_split(enc) {
        Option::None => Err(AuthError::MalformedSecretOrCode),
        Option::Some((salt_part, cipher_part)) => match b64_decoding(salt_part) {
            Option::None => Err(AuthError::MalformedSecretOrCode),
            Option::Some(salt) => {
                if !(8 <= salt.len() <= 48) {
                    Err(AuthError::MalformedSecretOrCode)
                } else {
                    match b64_decoding(cipher_part) {
                        Option::None => Err(AuthError::MalformedSecretOrCode),
                        Option::Some(cipher) => {
                            let key = argon2_key(encode_utf8(key_material(uid, secret)), salt);
                            let plain = xor_stream(cipher, key);
                            if valid_utf8(plain) {
                                Ok(decode_utf8(plain))
                            } else {
                                Err(AuthError::Internal)
                            }
                        },
                    }
                }
            },
        },
    }
}

/// The key-derivation input for this identity and process secret, as text.
fn build_key_material(user_id: &UserId, secret: &str) -> (r: String)
    ensures
        r@ == key_material(user_id.value, secret@),
{
    let mut material = user_id.to_uuid_string();
    push_char(&mut material, ':');
    material.append(secret);
    assert(material@ =~= key_material(user_id.value, secret@));
    material
}

/// Encrypts a credential secret for one identity: draws a fresh random
/// 16-byte salt, derives key material from the identity and the process-wide
/// secret under that salt, combines it with the plaintext as a cycled
/// keystream, and stores `"{base64 salt}:{base64 ciphertext}"`. Decryption
/// with the same identity and secret restores the plaintext exactly.
pub fn encrypt_password(password: &str, user_id: &UserId, secret: &str) -> (r: Result<
    String,
    AuthError,
>)
    requires
        secret@.len() <= 0x0FFF_FFFF,
    ensures
        r is Ok,
        r is Ok ==> decrypt_outcome(r->Ok_0@, user_id.value, secret@) == Ok::<
            Seq<char>,
            AuthError,
        >(password@),
        r is Ok ==> exists|salt: Seq<u8>|
            salt.len() == 16 && r->Ok_0@ == b64_encoding(salt) + seq![':'] + b64_encoding(
                xor_stream(
                    encode_utf8(password@),
                    argon2_key(encode_utf8(key_material(user_id.value, secret@)), salt),
                ),
            ),
{
    broadcast use vstd::utf8::encode_utf8_valid_utf8, vstd::utf8::encode_utf8_decode_utf8;

    let mut salt = zero_vec(16);
    fill_random(&mut salt);
    let salt_b64 = b64_encode(salt.as_slice());
    let material = build_key_material(user_id, secret);
    proof {
        crate::strutil::lemma_encode_utf8_len(key_material(user_id.value, secret@));
    }
    let key = match derive_key(material.as_str().as_bytes(), salt.as_slice()) {
        Ok(k) => k,
        Err(e) => {
            assert(false);
            return Err(e);
        },
    };
    let cipher = xor_with_key(password.as_bytes(), key.as_slice());
    let cipher_b64 = b64_encode(cipher.as_slice());
    let mut out = salt_b64;
    push_char(&mut out, ':');
    out.append(cipher_b64.as_str());
    proof {
        let ghost uid = user_id.value;
        let ghost km = encode_utf8(key_material(uid, secret@));
        assert(out@ =~= b64_encoding(salt@) + seq![':'] + b64_encoding(cipher@));
        lemma_colon_split_of_concat(b64_encoding(salt@), b64_encoding(cipher@));
        lemma_xor_stream_involution(encode_utf8(password@), argon2_key(km, salt@));
        assert(decrypt_outcome(out@, uid, secret@) == Ok::<Seq<char>, AuthError>(password@));
    }
    Ok(out)
}

/// Decrypts a stored encrypted secret for one identity: splits at the single
/// colon, re-derives the key material from the recovered salt, unwinds the
/// keystream, and requires the result to be valid text. A string without
/// exactly one colon, an undecodable part, or a salt of the wrong size is a
/// structural error; non-text output is an internal error.
pub fn decrypt_password(encrypted: &str, user_id: &UserId, secret: &str) -> (r: Result<
    String,
    AuthError,
>)
    requires
        secret@.len() <= 0x0FFF_FFFF,
    ensures
        r matches Ok(p) ==> decrypt_outcome(encrypted@, user_id.value, secret@) == Ok::<
            Seq<char>,
            AuthError,
        >(p@),
        r matches Err(e) ==> decrypt_outcome(encrypted@, user_id.value, secret@) == Err::<
            Seq<char>,
            AuthError,
        >(e),
{
    let n = encrypted.unicode_len();
    let mut colon_at: usize = 0;
    let mut found = false;
    let mut i: usize = 0;
    while i < n
        invariant
            n == encrypted@.len(),
            0 <= i <= n,
            found ==> colon_at < i && encrypted@[colon_at as int] == ':' && (forall|j: int|
                0 <= j < i && j != colon_at ==> encrypted@[j] != ':'),
            !found ==> forall|j: int| 0 <= j < i ==> encrypted@[j] != ':',
        decreases n - i,
    {
        let c = encrypted.get_char(i);
        if c == ':' {
            if found {
                proof {
                    assert(decrypt_outcome(encrypted@, user_id.value, secret@) == Err::<
                        Seq<char>,
                        AuthError,
                    >(AuthError::MalformedSecretOrCode));
                }
                return Err(AuthError::MalformedSecretOrCode);
            }
            colon_at = i;
            found = true;
        }
        i = i + 1;
    }
    if !found {
        return Err(AuthError::MalformedSecretOrCode);
    }
    proof {
        let k = choose|k: int|
            0 <= k < encrypted@.len() && encrypted@[k] == ':' && (forall|j: int|
                0 <= j < encrypted@.len() && j != k ==> encrypted@[j] != ':');
        assert(k == colon_at as int);
    }
    let salt_part = encrypted.substring_char(0, colon_at);
    let cipher_part = encrypted.substring_char(colon_at + 1, n);
    assert(salt_part@ =~= encrypted@.take(colon_at as int));
    assert(cipher_part@ =~= encrypted@.skip(colon_at as int + 1));
    let salt = match b64_decode(salt_part) {
        Some(s) => s,
        None => {
            return Err(AuthError::MalformedSecretOrCode);
        },
    };
    let cipher = match b64_decode(cipher_part) {
        Some(c) => c,
        None => {
            return Err(AuthError::MalformedSecretOrCode);
        },
    };
    let material = build_key_material(user_id, secret);
    proof {
        crate::strutil::lemma_encode_utf8_len(key_material(user_id.value, secret@));
    }
    let key = match derive_key(material.as_str().as_bytes(), salt.as_slice()) {
        Ok(k) => k,
        Err(e) => {
            return Err(e);
        },
    };
    let plain = xor_with_key(cipher.as_slice(), key.as_slice());
    match bytes_to_string(plain) {
        Some(text) => Ok(text),
        None => Err(AuthError::Internal),
    }
}

} // verus!
