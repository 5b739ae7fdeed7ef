use vstd::prelude::*;
use vstd::utf8::encode_utf8;

use crate::ambient::unix_time_now;
use crate::errors::AuthError;
use crate::hashing::{phc_wellformed, argon2_matches, verify_password};
use crate::ids::UserId;
use crate::strutil::str_eq;
use crate::token::{validate_outcome, validate_token_at};
use crate::totp::{TOTP_DIGITS, TOTP_STEP_SECONDS, b32_decoding, totp_code, verify_totp_at};

verus! {

/// The authenticated caller of one request, as handlers receive it from the
/// boundary.
pub struct AuthUser {
    pub user_id: UserId,
}

/// Whether a header value is of the `Bearer <token>` shape.
pub open spec fn is_bearer(h: Seq<char>) -> bool {
    h.len() >= 7 && h.take(7) == "Bearer "@
}

/// The token part of a bearer header value.
pub open spec fn bearer_token(h: Seq<char>) -> Seq<char> {
    h.skip(7)
}

/// The token of a header of the `Bearer <token>` shape; an absent or
/// misshapen header, or one of another scheme, is its own failure.
fn parse_bearer<'a>(header: Option<&'a str>) -> (r: Result<&'a str, AuthError>)
    ensures
        header is None ==> r == Err::<&'a str, AuthError>(AuthError::MissingOrMalformedHeader),
        header is Some && !is_bearer(header->0@) ==> r == Err::<&'a str, AuthError>(
            AuthError::MissingOrMalformedHeader,
        ),
        header is Some && is_bearer(header->0@) ==> r is Ok && r->Ok_0@ == bearer_token(
            header->0@,
        ),
{
    let h = match header {
        Some(h) => h,
        None => {
            return Err(AuthError::MissingOrMalformedHeader);
        },
    };
    let n = h.unicode_len();
    if n < 7 {
        return Err(AuthError::MissingOrMalformedHeader);
    }
    let prefix = h.substring_char(0, 7);
    if !str_eq(prefix, "Bearer ") {
        assert(h@.take(7) =~= prefix@);
        return Err(AuthError::MissingOrMalformedHeader);
    }
    assert(is_bearer(h@)) by {
        assert(h@.take(7) =~= prefix@);
    }
    let token = h.substring_char(7, n);
    assert(token@ =~= bearer_token(h@));
    Ok(token)
}

/// Authenticates one request as of time `now`: requires an authorization
/// header of the `Bearer <token>` shape, and delegates the token to
/// validation. An absent or misshapen header is its own failure; every
/// validation failure passes through unchanged.
pub fn authenticate_at(header: Option<&str>, now: i64, secret: &[u8]) -> (r: Result<
    AuthUser,
    AuthError,
>)
    ensures
        header is None ==> r == Err::<AuthUser, AuthError>(AuthError::MissingOrMalformedHeader),
        header is Some && !is_bearer(header->0@) ==> r == Err::<AuthUser, AuthError>(
            AuthError::MissingOrMalformedHeader,
        ),
        header is Some && is_bearer(header->0@) && r is Ok ==> validate_outcome(
            bearer_token(header->0@),
            now as int,
            secret@,
        ) == Ok::<u128, AuthError>(r->Ok_0.user_id.value),
        header is Some && is_bearer(header->0@) && r is Err ==> validate_outcome(
            bearer_token(header->0@),
            now as int,
            secret@,
        ) == Err::<u128, AuthError>(r->Err_0),
{
    let token = match parse_bearer(header) {
        Ok(t) => t,
        Err(e) => {
            return Err(e);
        },
    };
    match validate_token_at(token, now, secret) {
        Ok(u) => Ok(AuthUser { user_id: u }),
        Err(e) => Err(e),
    }
}

/// Authenticates one request as of the current wall-clock time.
pub fn authenticate(header: Option<&str>, secret: &[u8]) -> (r: Result<AuthUser, AuthError>)
    ensures
        header is None ==> r == Err::<AuthUser, AuthError>(AuthError::MissingOrMalformedHeader),
        header is Some && !is_bearer(header->0@) ==> r == Err::<AuthUser, AuthError>(
            AuthError::MissingOrMalformedHeader,
        ),
        header is Some && is_bearer(header->0@) && r is Ok ==> exists|now: int|
            #[trigger] validate_outcome(bearer_token(header->0@), now, secret@) == Ok::<
                u128,
                AuthError,
            >(r->Ok_0.user_id.value),
        header is Some && is_bearer(header->0@) && r is Err ==> r->Err_0 == AuthError::Internal
            || exists|now: int|
            #[trigger] validate_outcome(bearer_token(header->0@), now, secret@) == Err::<
                u128,
                AuthError,
            >(r->Err_0),
{
    let token = match parse_bearer(header) {
        Ok(t) => t,
        Err(e) => {
            return Err(e);
        },
    };
    let now_unsigned = match unix_time_now() {
        Ok(t) => t,
        Err(e) => {
            return Err(e);
        },
    };
    if now_unsigned > i64::MAX as u64 {
        return Err(AuthError::Internal);
    }
    match validate_token_at(token, now_unsigned as i64, secret) {
        Ok(u) => Ok(AuthUser { user_id: u }),
        Err(e) => Err(e),
    }
}

/// Decides one login attempt as of time `now`, from the submitted password
/// and second-factor code and the stored account state. The password must
/// verify against the stored hash; where the second factor is enabled, a
/// stored secret must exist (else the account is corrupt), a code must have
/// been submitted, and it must be the code of the current window.
pub fn check_login(
    password: &str,
    password_hash: &str,
    totp_enabled: bool,
    totp_secret: Option<&str>,
    totp_code_given: Option<&str>,
    now: u64,
) -> (r: Result<(), AuthError>)
    requires
        password@.len() <= 0x3FFF_FFFF,
    ensures
        !phc_wellformed(password_hash@) ==> r == Err::<(), AuthError>(
            AuthError::MalformedSecretOrCode,
        ),
        phc_wellformed(password_hash@) && !argon2_matches(encode_utf8(password@), password_hash@)
            ==> r == Err::<(), AuthError>(AuthError::InvalidCredentials),
        phc_wellformed(password_hash@) && argon2_matches(encode_utf8(password@), password_hash@)
            ==> {
            &&& !totp_enabled ==> r == Ok::<(), AuthError>(())
            &&& totp_enabled && totp_secret is None ==> r == Err::<(), AuthError>(
                AuthError::Internal,
            )
            &&& totp_enabled && totp_secret is Some && totp_code_given is None ==> r == Err::<
                (),
                AuthError,
            >(AuthError::InvalidCredentials)
        },
        r is Ok ==> phc_wellformed(password_hash@) && argon2_matches(
            encode_utf8(password@),
            password_hash@,
        ),
        r is Ok && totp_enabled ==> totp_secret is Some && totp_code_given is Some && b32_decoding(
            totp_secret->0@,
        ) is Some && totp_code_given->0@ == totp_code(
            b32_decoding(totp_secret->0@)->0,
            now / TOTP_STEP_SECONDS,
            TOTP_DIGITS as nat,
        ),
        phc_wellformed(password_hash@) && argon2_matches(encode_utf8(password@), password_hash@)
            && totp_enabled && totp_secret is Some && totp_code_given is Some && b32_decoding(
            totp_secret->0@,
        ) is None ==> r == Err::<(), AuthError>(AuthError::MalformedSecretOrCode),
        phc_wellformed(password_hash@) && argon2_matches(encode_utf8(password@), password_hash@)
            && totp_enabled && totp_secret is Some && totp_code_given is Some && b32_decoding(
            totp_secret->0@,
        ) is Some && totp_code_given->0@ != totp_code(
            b32_decoding(totp_secret->0@)->0,
            now / TOTP_STEP_SECONDS,
            TOTP_DIGITS as nat,
        ) ==> r == Err::<(), AuthError>(AuthError::InvalidCredentials),
        phc_wellformed(password_hash@) && argon2_matches(encode_utf8(password@), password_hash@)
            && totp_enabled && totp_secret is Some && totp_code_given is Some && b32_decoding(
            totp_secret->0@,
        ) is Some && totp_code_given->0@ == totp_code(
            b32_decoding(totp_secret->0@)->0,
            now / TOTP_STEP_SECONDS,
            TOTP_DIGITS as nat,
        ) ==> r == Ok::<(), AuthError>(()),
{
    let verified = match verify_password(password, password_hash) {
        Ok(b) => b,
        Err(e) => {
            return Err(e);
        },
    };
    if !verified {
        return Err(AuthError::InvalidCredentials);
    }
    if totp_enabled {
        let secret = match totp_secret {
            Some(s) => s,
            None => {
                return Err(AuthError::Internal);
            },
        };
        let code = match totp_code_given {
            Some(c) => c,
            None => {
                return Err(AuthError::InvalidCredentials);
            },
        };
        let ok = match verify_totp_at(secret, code, now, TOTP_STEP_SECONDS, TOTP_DIGITS) {
            Ok(b) => b,
            Err(e) => {
                return Err(e);
            },
        };
        if !ok {
            return Err(AuthError::InvalidCredentials);
        }
    }
    Ok(())
}

} // verus!
