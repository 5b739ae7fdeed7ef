use vstd::prelude::*;
use vstd::string::StringExecFns;

use hmac::{Hmac, KeyInit, Mac};
use sha1::Sha1;

use crate::ambient::{fill_random, unix_time_now};
use crate::errors::AuthError;
use crate::ids::hex_char_of;
use crate::strutil::{push_char, zero_vec};

verus! {

/// The Base32 rendering (RFC 4648 alphabet `A`-`Z`, `2`-`7`, padded with `=`)
/// of a byte sequence. Deterministic in its argument.
pub uninterp spec fn b32_encoding(b: Seq<u8>) -> Seq<char>;

/// What Base32 decoding yields: the bytes, or nothing where the input is no
/// valid Base32 text. Deterministic in its argument.
pub uninterp spec fn b32_decoding(s: Seq<char>) -> Option<Seq<u8>>;

/// The HMAC-SHA1 tag of `msg` under `key`: 20 bytes, deterministic in its
/// arguments.
pub uninterp spec fn hmac_sha1(key: Seq<u8>, msg: Seq<u8>) -> Seq<u8>;

/// Relies on data_encoding::BASE32.encode: it renders the bytes in the RFC
/// 4648 alphabet with `=` padding (eight characters for every started group
/// of five bytes), and its own decode inverts it.
#[verifier::external_body]
fn b32_encode(b: &[u8]) -> (r: String)
    ensures
        r@ == b32_encoding(b@),
        r@.len() == 8 * ((b@.len() + 4) / 5),
        b32_decoding(r@) == Some(b@),
{
    data_encoding::BASE32.encode(b)
}

/// Relies on data_encoding::BASE32.decode: it yields the encoded bytes
/// exactly on valid Base32 text and an error otherwise.
#[verifier::external_body]
fn b32_decode(s: &str) -> (r: Option<Vec<u8>>)
    ensures
        r is Some <==> b32_decoding(s@) is Some,
        r is Some ==> Some(r->0@) == b32_decoding(s@),
{
    data_encoding::BASE32.decode(s.as_bytes()).ok()
}

/// Relies on hmac::Hmac over sha1::Sha1 (traits KeyInit and Mac): the tag is
/// 20 bytes and deterministic in key and message; HMAC accepts keys of any
/// length, so key setup fails on no input.
#[verifier::external_body]
fn hmac_sha1_tag(key: &[u8], msg: &[u8]) -> (r: Vec<u8>)
    ensures
        r@ == hmac_sha1(key@, msg@),
        r@.len() == 20,
{
    let mut mac =
        Hmac::<Sha1>::new_from_slice(key).expect("HMAC accepts keys of any length");
    mac.update(msg);
    mac.finalize().into_bytes().to_vec()
}

/// The eight bytes of a counter, big-endian.
pub open spec fn be_bytes64(c: u64) -> Seq<u8> {
    seq![
        (c >> 56u64) as u8,
        (c >> 48u64) as u8,
        (c >> 40u64) as u8,
        (c >> 32u64) as u8,
        (c >> 24u64) as u8,
        (c >> 16u64) as u8,
        (c >> 8u64) as u8,
        c as u8,
    ]
}

fn counter_bytes(c: u64) -> (r: Vec<u8>)
    ensures
        r@ == be_bytes64(c),
{
    let mut out: Vec<u8> = Vec::new();
    out.push((c >> 56u64) as u8);
    out.push((c >> 48u64) as u8);
    out.push((c >> 40u64) as u8);
    out.push((c >> 32u64) as u8);
    out.push((c >> 24u64) as u8);
    out.push((c >> 16u64) as u8);
    out.push((c >> 8u64) as u8);
    out.push(c as u8);
    assert(out@ =~= be_bytes64(c));
    out
}

pub open spec fn pow10(n: nat) -> nat
    decreases n,
{
    if n == 0 {
        1
    } else {
        10 * pow10((n - 1) as nat)
    }
}

/// The powers of ten up to the ninth, the largest that a 32-bit value holds.
fn pow10_exec(n: usize) -> (r: u32)
    requires
        n <= 9,
    ensures
        r == pow10(n as nat),
        r >= 1,
{
    proof {
        reveal_with_fuel(pow10, 10);
    }
    if n == 0 {
        1
    } else if n == 1 {
        10
    } else if n == 2 {
        100
    } else if n == 3 {
        1000
    } else if n == 4 {
        10000
    } else if n == 5 {
        100000
    } else if n == 6 {
        1000000
    } else if n == 7 {
        10000000
    } else if n == 8 {
        100000000
    } else {
        1000000000
    }
}

/// The dynamic truncation of a 20-byte tag: the low nibble of the last byte
/// names an offset, and the four bytes there, the first masked to seven bits,
/// read big-endian.
pub open spec fn dynamic_truncation(h: Seq<u8>) -> u32
    recommends
        h.len() == 20,
{
    let off = (h[19] & 0xf) as int;
    (((h[off] & 0x7f) as u32) << 24u32) | ((h[off + 1] as u32) << 16u32) | ((h[off + 2] as u32)
        << 8u32) | (h[off + 3] as u32)
}

/// The one-time value of a window: the dynamic truncation of the tag over the
/// window counter, reduced to the wanted number of decimal digits.
pub open spec fn hotp_value(key: Seq<u8>, counter: u64, digits: nat) -> nat {
    (dynamic_truncation(hmac_sha1(key, be_bytes64(counter))) as nat) % pow10(digits)
}

/// `v` written as `digits` decimal digits, zero-padded at the front.
pub open spec fn code_chars(v: nat, digits: nat) -> Seq<char> {
    Seq::new(digits, |i| hex_char_of((((v / pow10((digits - 1 - i) as nat)) % 10) as u128)))
}

/// The one-time code of a window, as text.
pub open spec fn totp_code(key: Seq<u8>, counter: u64, digits: nat) -> Seq<char> {
    code_chars(hotp_value(key, counter, digits), digits)
}

/// A decimal digit character.
fn digit_char(d: u32) -> (c: char)
    requires
        d < 10,
    ensures
        c == hex_char_of(d as u128),
{
    if d == 0 {
        '0'
    } else if d == 1 {
        '1'
    } else if d == 2 {
        '2'
    } else if d == 3 {
        '3'
    } else if d == 4 {
        '4'
    } else if d == 5 {
        '5'
    } else if d == 6 {
        '6'
    } else if d == 7 {
        '7'
    } else if d == 8 {
        '8'
    } else {
        '9'
    }
}

/// `v` as a zero-padded decimal string of the wanted length.
fn format_code(v: u32, digits: usize) -> (r: String)
    requires
        1 <= digits <= 9,
    ensures
        r@ == code_chars(v as nat, digits as nat),
{
    let mut s = String::new();
    let mut i: usize = 0;
    while i < digits
        invariant
            1 <= digits <= 9,
            0 <= i <= digits,
            s@ =~= code_chars(v as nat, digits as nat).take(i as int),
        decreases digits - i,
    {
        let p = pow10_exec(digits - 1 - i);
        let d = (v / p) % 10;
        let c = digit_char(d);
        push_char(&mut s, c);
        i = i + 1;
        assert(s@ =~= code_chars(v as nat, digits as nat).take(i as int));
    }
    assert(s@ =~= code_chars(v as nat, digits as nat));
    s
}

/// The one-time code for a given Unix timestamp: decodes the Base32 secret,
/// takes the tag over the big-endian window counter floor(timestamp / step),
/// truncates dynamically, reduces modulo ten to the `digits`, and zero-pads.
pub fn totp_code_at(secret: &str, timestamp: u64, step: u64, digits: usize) -> (r: Result<
    String,
    AuthError,
>)
    requires
        step >= 1,
        1 <= digits <= 9,
    ensures
        r is Ok <==> b32_decoding(secret@) is Some,
        r is Ok ==> r->Ok_0@ == totp_code(
            b32_decoding(secret@)->0,
            timestamp / step,
            digits as nat,
        ),
        r is Err ==> r->Err_0 == AuthError::MalformedSecretOrCode,
{
    let key = match b32_decode(secret) {
        Some(k) => k,
        None => {
            return Err(AuthError::MalformedSecretOrCode);
        },
    };
    let counter = timestamp / step;
    let msg = counter_bytes(counter);
    let tag = hmac_sha1_tag(key.as_slice(), msg.as_slice());
    let last = tag[19];
    let off = (last & 0xf) as usize;
    assert(off < 16) by (bit_vector)
        requires
            off == (last & 0xf) as usize,
    ;
    let b0 = tag[off];
    let binary: u32 = (((b0 & 0x7f) as u32) << 24u32) | ((tag[off + 1] as u32) << 16u32) | ((tag[off
        + 2] as u32) << 8u32) | (tag[off + 3] as u32);
    assert(binary == dynamic_truncation(tag@));
    let modulo = pow10_exec(digits);
    let code_v = binary % modulo;
    assert(code_v as nat == hotp_value(key@, counter, digits as nat));
    let s = format_code(code_v, digits);
    Ok(s)
}

/// The one-time code for the current wall-clock time.
pub fn generate_totp(secret: &str, step: u64, digits: usize) -> (r: Result<String, AuthError>)
    requires
        step >= 1,
        1 <= digits <= 9,
    ensures
        r is Ok ==> b32_decoding(secret@) is Some && exists|t: u64|
            r->Ok_0@ == totp_code(b32_decoding(secret@)->0, #[trigger] (t / step), digits as nat),
        b32_decoding(secret@) is None ==> r is Err,
        b32_decoding(secret@) is Some ==> r is Ok || r->Err_0 == AuthError::Internal,
        r is Err ==> r->Err_0 == AuthError::MalformedSecretOrCode || r->Err_0
            == AuthError::Internal,
{
    let now = match unix_time_now() {
        Ok(t) => t,
        Err(e) => {
            return Err(e);
        },
    };
    totp_code_at(secret, now, step, digits)
}

/// Whether a candidate code is the one-time code of the window that the
/// timestamp falls in: the exact window, with no look-back or look-ahead.
pub fn verify_totp_at(secret: &str, code: &str, timestamp: u64, step: u64, digits: usize) -> (r:
    Result<bool, AuthError>)
    requires
        step >= 1,
        1 <= digits <= 9,
    ensures
        r is Ok <==> b32_decoding(secret@) is Some,
        r is Ok ==> r->Ok_0 == (code@ == totp_code(
            b32_decoding(secret@)->0,
            timestamp / step,
            digits as nat,
        )),
        r is Err ==> r->Err_0 == AuthError::MalformedSecretOrCode,
{
    let generated = match totp_code_at(secret, timestamp, step, digits) {
        Ok(g) => g,
        Err(e) => {
            return Err(e);
        },
    };
    let code_owned = code.to_owned();
    Ok(generated == code_owned)
}

/// Whether a candidate code is the one-time code of the current wall-clock
/// window.
pub fn verify_totp(secret: &str, code: &str, step: u64, digits: usize) -> (r: Result<
    bool,
    AuthError,
>)
    requires
        step >= 1,
        1 <= digits <= 9,
    ensures
        r is Ok ==> b32_decoding(secret@) is Some && exists|t: u64|
            r->Ok_0 == (code@ == totp_code(
                b32_decoding(secret@)->0,
                #[trigger] (t / step),
                digits as nat,
            )),
        b32_decoding(secret@) is None ==> r is Err,
        b32_decoding(secret@) is Some ==> r is Ok || r->Err_0 == AuthError::Internal,
        r is Err ==> r->Err_0 == AuthError::MalformedSecretOrCode || r->Err_0
            == AuthError::Internal,
{
    let now = match unix_time_now() {
        Ok(t) => t,
        Err(e) => {
            return Err(e);
        },
    };
    verify_totp_at(secret, code, now, step, digits)
}

/// The enrollment text for a fresh secret, as consumed by authenticator
/// applications.
pub open spec fn provisioning_uri(label: Seq<char>, account: Seq<char>, secret: Seq<char>) -> Seq<
    char,
> {
    "otpauth://totp/"@ + label + seq![':'] + account + "?secret="@ + secret + "&issuer="@ + label
}

/// Draws a fresh 20-byte random secret, renders it in Base32, and formats the
/// provisioning text that embeds the label, the account and the secret.
pub fn generate_totp_secret(app_name: &str, account_name: &str) -> (r: Result<
    (String, String),
    AuthError,
>)
    ensures
        r is Ok,
        r is Ok ==> r->Ok_0.0@.len() == 32,
        r is Ok ==> exists|sb: Seq<u8>|
            sb.len() == 20 && b32_decoding(#[trigger] b32_encoding(sb)) == Some(sb)
                && r->Ok_0.0@ == b32_encoding(sb) && r->Ok_0.1@ == provisioning_uri(
                app_name@,
                account_name@,
                b32_encoding(sb),
            ),
{
    let mut buf = zero_vec(20);
    fill_random(&mut buf);
    let secret = b32_encode(buf.as_slice());
    let mut uri = String::from_str("otpauth://totp/");
    uri.append(app_name);
    push_char(&mut uri, ':');
    uri.append(account_name);
    uri.append("?secret=");
    uri.append(secret.as_str());
    uri.append("&issuer=");
    uri.append(app_name);
    assert(uri@ =~= provisioning_uri(app_name@, account_name@, b32_encoding(buf@)));
    Ok((secret, uri))
}

/// The second-factor window length that enrollment and login use.
pub const TOTP_STEP_SECONDS: u64 = 30;

/// The second-factor code length that enrollment and login use.
pub const TOTP_DIGITS: usize = 6;

/// One identity's second-factor enrollment: no secret yet, a generated but
/// unproven secret, a secret proven by one valid code, or an explicit
/// opt-out. Only `confirm` yields the enabled state, so a secret is trusted
/// only after its holder has produced a valid code.
#[derive(Debug, Clone, PartialEq, Eq)]
pub enum TotpEnrollment {
    Unset,
    Pending { secret: String },
    Enabled { secret: String },
    Disabled,
}

impl TotpEnrollment {
    /// Begins enrollment: draws a fresh secret and moves to the pending
    /// state, enabling nothing. There is no step from here straight to the
    /// enabled state.
    pub fn begin(&self, label: &str, account: &str) -> (r: Result<
        (TotpEnrollment, String),
        AuthError,
    >)
        requires
            !(self is Enabled),
        ensures
            r is Ok,
            r is Ok ==> r->Ok_0.0 is Pending && exists|sb: Seq<u8>|
                sb.len() == 20 && b32_decoding(#[trigger] b32_encoding(sb)) == Some(sb)
                    && r->Ok_0.0->Pending_secret@ == b32_encoding(sb) && r->Ok_0.1@
                    == provisioning_uri(label@, account@, b32_encoding(sb)),
    {
        let (secret, uri) = match generate_totp_secret(label, account) {
            Ok(pair) => pair,
            Err(e) => {
                return Err(e);
            },
        };
        Ok((TotpEnrollment::Pending { secret }, uri))
    }

    /// Confirms enrollment as of time `now`: exactly a pending secret whose
    /// current-window code has been produced moves to the enabled state, with
    /// the secret kept; everything else is rejected and the state stands.
    pub fn confirm(&self, code: &str, now: u64) -> (r: Result<TotpEnrollment, AuthError>)
        ensures
            self is Pending && b32_decoding(self->Pending_secret@) is Some && code@ == totp_code(
                b32_decoding(self->Pending_secret@)->0,
                now / TOTP_STEP_SECONDS,
                TOTP_DIGITS as nat,
            ) ==> r is Ok,
            r is Ok ==> self is Pending && r->Ok_0 is Enabled && r->Ok_0->Enabled_secret@
                == self->Pending_secret@ && b32_decoding(self->Pending_secret@) is Some && code@
                == totp_code(
                b32_decoding(self->Pending_secret@)->0,
                now / TOTP_STEP_SECONDS,
                TOTP_DIGITS as nat,
            ),
            !(self is Pending) ==> r == Err::<TotpEnrollment, AuthError>(
                AuthError::MalformedSecretOrCode,
            ),
            self is Pending && b32_decoding(self->Pending_secret@) is None ==> r == Err::<
                TotpEnrollment,
                AuthError,
            >(AuthError::MalformedSecretOrCode),
            self is Pending && b32_decoding(self->Pending_secret@) is Some && code@ != totp_code(
                b32_decoding(self->Pending_secret@)->0,
                now / TOTP_STEP_SECONDS,
                TOTP_DIGITS as nat,
            ) ==> r == Err::<TotpEnrollment, AuthError>(AuthError::MalformedSecretOrCode),
    {
        let secret = match self {
            TotpEnrollment::Pending { secret } => secret,
            _ => {
                return Err(AuthError::MalformedSecretOrCode);
            },
        };
        let ok = match verify_totp_at(secret.as_str(), code, now, TOTP_STEP_SECONDS, TOTP_DIGITS) {
            Ok(b) => b,
            Err(e) => {
                return Err(e);
            },
        };
        if !ok {
            return Err(AuthError::MalformedSecretOrCode);
        }
        Ok(TotpEnrollment::Enabled { secret: secret.clone() })
    }

    /// Opts out of the second factor: the enabled state moves to the disabled
    /// state and the secret is cleared.
    pub fn disable(&self) -> (r: TotpEnrollment)
        requires
            self is Enabled,
        ensures
            r is Disabled,
    {
        TotpEnrollment::Disabled
    }
}

/// Law: the one-time code is a function of the secret, the window and the
/// digit count alone; two computations whose timestamps fall in one window
/// agree, so computation at a window boundary is deterministic in the
/// timestamp.
pub proof fn lemma_totp_deterministic(key: Seq<u8>, t1: u64, t2: u64, step: u64, digits: nat)
    requires
        step >= 1,
        t1 / step == t2 / step,
    ensures
        totp_code(key, t1 / step, digits) == totp_code(key, t2 / step, digits),
{
}

/// Law: there is no grace window. A candidate is accepted at a timestamp
/// exactly when it equals the code of that timestamp's own window, so the
/// code of window `n` is rejected throughout window `n + 1` whenever the two
/// windows' codes differ.
pub proof fn lemma_totp_no_grace_window(key: Seq<u8>, n: u64, t: u64, step: u64, digits: nat)
    requires
        step >= 1,
        n < u64::MAX,
        t / step == n + 1,
        totp_code(key, n, digits) != totp_code(key, (n + 1) as u64, digits),
    ensures
        totp_code(key, n, digits) != totp_code(key, t / step, digits),
{
}

} // verus!
