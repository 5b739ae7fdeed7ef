use vstd::prelude::*;

use crate::ambient::unix_time_now;
use crate::errors::AuthError;
use crate::ids::{UserId, uuid_chars, uuid_value, valid_uuid_chars};

verus! {

/// The claims a session token asserts: subject, issuer, time of issue and
/// expiry, the latter two in whole seconds since the Unix epoch.
#[derive(Debug, Clone)]
pub struct Claims {
    pub sub: String,
    pub iss: String,
    pub iat: i64,
    pub exp: i64,
}

/// The mathematical content of a claims set.
pub ghost struct SpecClaims {
    pub sub: Seq<char>,
    pub iss: Seq<char>,
    pub iat: int,
    pub exp: int,
}

impl View for Claims {
    type V = SpecClaims;

    open spec fn view(&self) -> SpecClaims {
        SpecClaims { sub: self.sub@, iss: self.iss@, iat: self.iat as int, exp: self.exp as int }
    }
}

/// The serialized signed token for a claims set under an HMAC-SHA256 secret
/// key. Deterministic in the claims and the key.
pub uninterp spec fn jwt_of(c: SpecClaims, key: Seq<u8>) -> Seq<char>;

/// What signature-checked decoding of a token under a key yields: the claims
/// carried by a well-signed, well-shaped token, and nothing otherwise.
/// Deterministic in token and key.
pub uninterp spec fn jwt_decoded(token: Seq<char>, key: Seq<u8>) -> Option<SpecClaims>;

/// Configuration of token issuance: the lifetime in seconds and the issuer
/// claim. The signing algorithm is HMAC-SHA256.
#[derive(Debug, Clone)]
pub struct TokenConfig {
    pub expires_in: i64,
    pub issuer: String,
}

impl Default for TokenConfig {
    /// A day's lifetime, under the system's fixed issuer name.
    fn default() -> (r: Self)
        ensures
            r.expires_in == 86400,
            r.issuer@ == "dragonfruit"@,
    {
        TokenConfig { expires_in: 60 * 60 * 24, issuer: "dragonfruit".to_owned() }
    }
}

/// Relies on jsonwebtoken::encode with an HS256 header and an HMAC secret
/// key: the token it signs carries exactly the given claims, is deterministic
/// in claims and key, and jsonwebtoken::decode under the same key restores
/// the claims from it wherever the expiry is non-negative (decoding reads the
/// expiry claim as an unsigned number).
#[verifier::external_body]
fn jwt_encode(claims: &Claims, secret: &[u8]) -> (r: Result<String, AuthError>)
    ensures
        r is Ok ==> r->Ok_0@ == jwt_of(claims@, secret@),
        r is Ok && claims.exp >= 0 ==> jwt_decoded(r->Ok_0@, secret@) == Some(claims@),
        r is Err ==> r->Err_0 == AuthError::Internal,
{
    let mut payload = serde_json::Map::new();
    payload.insert("sub".to_string(), serde_json::Value::String(claims.sub.clone()));
    payload.insert("iss".to_string(), serde_json::Value::String(claims.iss.clone()));
    payload.insert("iat".to_string(), serde_json::Value::from(claims.iat));
    payload.insert("exp".to_string(), serde_json::Value::from(claims.exp));
    let key = jsonwebtoken::EncodingKey::from_secret(secret);
    let header = jsonwebtoken::Header::new(jsonwebtoken::Algorithm::HS256);
    match jsonwebtoken::encode(&header, &serde_json::Value::Object(payload), &key) {
        Ok(t) => Ok(t),
        Err(_) => Err(AuthError::Internal),
    }
}

/// Relies on jsonwebtoken::decode under an HMAC secret key, restricted to
/// HS256, with the expiry check turned off (the caller checks expiry
/// itself, with no leeway): it verifies signature and structure, yields the
/// carried claims, and inverts jsonwebtoken::encode under the same key.
#[verifier::external_body]
fn jwt_decode(token: &str, secret: &[u8]) -> (r: Option<Claims>)
    ensures
        r is Some <==> jwt_decoded(token@, secret@) is Some,
        r is Some ==> r->0@ == jwt_decoded(token@, secret@)->0,
{
    let key = jsonwebtoken::DecodingKey::from_secret(secret);
    let mut validation = jsonwebtoken::Validation::new(jsonwebtoken::Algorithm::HS256);
    validation.validate_exp = false;
    let data = match jsonwebtoken::decode::<serde_json::Value>(token, &key, &validation) {
        Ok(d) => d,
        Err(_) => return None,
    };
    let sub = data.claims.get("sub")?.as_str()?.to_string();
    let iss = data.claims.get("iss")?.as_str()?.to_string();
    let iat = data.claims.get("iat")?.as_i64()?;
    let exp = data.claims.get("exp")?.as_i64()?;
    Some(Claims { sub, iss, iat, exp })
}

/// The claims issued to an identity: its canonical rendering as the subject,
/// the configured issuer, and the expiry a fixed lifetime past the time of
/// issue.
pub open spec fn issued_claims(id: u128, iss: Seq<char>, iat: int, exp: int) -> SpecClaims {
    SpecClaims { sub: uuid_chars(id), iss: iss, iat: iat, exp: exp }
}

/// What validation of a token at time `now` yields: the subject identity of a
/// well-signed unexpired token; the expiry error where the signature holds
/// but `exp` lies at or before `now`; the invalid-token error where signature
/// or structure fail; and an internal error where a well-signed token carries
/// a subject that is no identity rendering.
pub open spec fn validate_outcome(token: Seq<char>, now: int, key: Seq<u8>) -> Result<
    u128,
    AuthError,
> {
    match jwt_decoded(token, key) {
        Option::None => Err(AuthError::InvalidToken),
        Option::Some(c) => {
            if now >= c.exp {
                Err(AuthError::ExpiredToken)
            } else if !valid_uuid_chars(c.sub) {
                Err(AuthError::Internal)
            } else {
                Ok(uuid_value(c.sub))
            }
        },
    }
}

/// Issues a signed token for an identity as of time `now`: subject, issuer,
/// time of issue, and expiry `expires_in` seconds later. Fails only on an
/// internal signing fault.
pub fn create_token_at(user_id: &UserId, config: &TokenConfig, now: i64, secret: &[u8]) -> (r:
    Result<String, AuthError>)
    requires
        i64::MIN <= now + config.expires_in <= i64::MAX,
    ensures
        r is Ok ==> r->Ok_0@ == jwt_of(
            issued_claims(user_id.value, config.issuer@, now as int, now + config.expires_in),
            secret@,
        ),
        r is Ok && now + config.expires_in >= 0 ==> jwt_decoded(r->Ok_0@, secret@) == Some(
            issued_claims(user_id.value, config.issuer@, now as int, now + config.expires_in),
        ),
        r is Err ==> r->Err_0 == AuthError::Internal,
{
    let claims = Claims {
        sub: user_id.to_uuid_string(),
        iss: config.issuer.clone(),
        iat: now,
        exp: now + config.expires_in,
    };
    jwt_encode(&claims, secret)
}

/// Issues a signed token for an identity as of the current wall-clock time.
pub fn create_token(user_id: &UserId, config: &TokenConfig, secret: &[u8]) -> (r: Result<
    String,
    AuthError,
>)
    ensures
        r is Ok ==> exists|now: int|
            r->Ok_0@ == jwt_of(
                #[trigger] issued_claims(
                    user_id.value,
                    config.issuer@,
                    now,
                    now + config.expires_in,
                ),
                secret@,
            ) && (now + config.expires_in >= 0 ==> jwt_decoded(r->Ok_0@, secret@) == Some(
                issued_claims(user_id.value, config.issuer@, now, now + config.expires_in),
            )),
        r is Err ==> r->Err_0 == AuthError::Internal,
{
    let now_unsigned = match unix_time_now() {
        Ok(t) => t,
        Err(e) => {
            return Err(e);
        },
    };
    if now_unsigned > i64::MAX as u64 {
        return Err(AuthError::Internal);
    }
    let now = now_unsigned as i64;
    if config.expires_in >= 0 {
        if now > i64::MAX - config.expires_in {
            return Err(AuthError::Internal);
        }
    } else {
        if now < i64::MIN - config.expires_in {
            return Err(AuthError::Internal);
        }
    }
    create_token_at(user_id, config, now, secret)
}

/// Validates a token as of time `now`: checks the signature and shape, then
/// the expiry (a token whose `exp` lies at or before `now` is expired, with
/// no leeway), then reads the subject identity.
pub fn validate_token_at(token: &str, now: i64, secret: &[u8]) -> (r: Result<UserId, AuthError>)
    ensures
        r matches Ok(u) ==> validate_outcome(token@, now as int, secret@) == Ok::<u128, AuthError>(
            u.value,
        ),
        r matches Err(e) ==> validate_outcome(token@, now as int, secret@) == Err::<
            u128,
            AuthError,
        >(e),
{
    let claims = match jwt_decode(token, secret) {
        Some(c) => c,
        None => {
            return Err(AuthError::InvalidToken);
        },
    };
    if now >= claims.exp {
        return Err(AuthError::ExpiredToken);
    }
    match UserId::from_uuid_str(claims.sub.as_str()) {
        Some(u) => Ok(u),
        None => Err(AuthError::Internal),
    }
}

/// Validates a token as of the current wall-clock time.
pub fn validate_token(token: &str, secret: &[u8]) -> (r: Result<UserId, AuthError>)
    ensures
        r matches Ok(u) ==> exists|now: int|
            #[trigger] validate_outcome(token@, now, secret@) == Ok::<u128, AuthError>(u.value),
        r matches Err(e) ==> e == AuthError::Internal || exists|now: int|
            #[trigger] validate_outcome(token@, now, secret@) == Err::<u128, AuthError>(e),
{
    let now_unsigned = match unix_time_now() {
        Ok(t) => t,
        Err(e) => {
            return Err(e);
        },
    };
    if now_unsigned > i64::MAX as u64 {
        return Err(AuthError::Internal);
    }
    validate_token_at(token, now_unsigned as i64, secret)
}

/// Law: the token lifecycle. Given that decoding inverts issuance for this
/// token (which the issuance contract supplies for every token it yields), a
/// token issued for identity `id` with expiry `exp` validates to exactly `id`
/// at every time before `exp`, and to the expiry error at every time from
/// `exp` on.
pub proof fn lemma_token_lifecycle(
    id: u128,
    iss: Seq<char>,
    iat: int,
    exp: int,
    now: int,
    key: Seq<u8>,
)
    requires
        jwt_decoded(jwt_of(issued_claims(id, iss, iat, exp), key), key) == Some(
            issued_claims(id, iss, iat, exp),
        ),
    ensures
        now < exp ==> validate_outcome(jwt_of(issued_claims(id, iss, iat, exp), key), now, key)
            == Ok::<u128, AuthError>(id),
        now >= exp ==> validate_outcome(jwt_of(issued_claims(id, iss, iat, exp), key), now, key)
            == Err::<u128, AuthError>(AuthError::ExpiredToken),
{
    crate::ids::lemma_uuid_roundtrip(id);
}

} // verus!
