use vstd::prelude::*;

use crate::numeric::{all_dec_digits, dec_value, is_dec_digit};

verus! {

/// Enrollment material handed to the user at second-factor setup: the shared
/// secret, a provisioning URI for scanning, and the secret again as a
/// manual-entry key.
#[derive(Clone, Debug)]
pub struct TotpSetup {
    pub secret: String,
    pub qr_code: String,
    pub manual_entry_key: String,
}

/// A submitted one-time code.
#[derive(Clone, Debug)]
pub struct TotpVerification {
    pub code: String,
}

/// The HMAC-SHA1 digest of `message` under `key` (the key is the UTF-8
/// encoding of the secret string).
pub uninterp spec fn hmac_sha1_digest(key: Seq<char>, message: Seq<u8>) -> Seq<u8>;

/// Relies on `hmac::Hmac<sha1::Sha1>`: the digest is 20 bytes and a function
/// of key and message alone; HMAC accepts keys of any length.
#[verifier::external_body]
fn hmac_sha1(key: &str, message: &[u8]) -> (r: Vec<u8>)
    ensures
        r@ == hmac_sha1_digest(key@, message@),
        r@.len() == 20,
{
    let mut mac = <hmac::Hmac<sha1::Sha1> as hmac::Mac>::new_from_slice(key.as_bytes()).expect(
        "HMAC accepts keys of any length",
    );
    hmac::Mac::update(&mut mac, message);
    hmac::Mac::finalize(mac).into_bytes().to_vec()
}

pub open spec fn is_lower_hex(c: char) -> bool {
    ('0' <= c && c <= '9') || ('a' <= c && c <= 'f')
}

pub open spec fn is_upper_hex(c: char) -> bool {
    ('0' <= c && c <= '9') || ('A' <= c && c <= 'F')
}

/// Relies on `uuid::Uuid::new_v4` rendered in its simple form: a fresh
/// random identifier as 32 lowercase hexadecimal characters. The value is
/// random, so only length and alphabet are assumed. `new_v4` panics if the
/// operating system's random number generator fails — an environmental
/// failure outside the machine model.
#[verifier::external_body]
fn fresh_hex_token() -> (r: String)
    ensures
        r@.len() == 32,
        forall|i: int| 0 <= i < 32 ==> is_lower_hex(#[trigger] r@[i]),
{
    uuid::Uuid::new_v4().simple().to_string()
}

/// The eight-byte big-endian rendering of a time-step counter.
pub open spec fn counter_bytes(step: u64) -> Seq<u8> {
    seq![
        ((step >> 56) & 0xff) as u8,
        ((step >> 48) & 0xff) as u8,
        ((step >> 40) & 0xff) as u8,
        ((step >> 32) & 0xff) as u8,
        ((step >> 24) & 0xff) as u8,
        ((step >> 16) & 0xff) as u8,
        ((step >> 8) & 0xff) as u8,
        (step & 0xff) as u8,
    ]
}

/// The six-digit one-time code for one time step: the standard dynamic
/// truncation of the HMAC-SHA1 digest of the counter under the secret,
/// reduced to six decimal digits.
pub open spec fn totp_code(secret: Seq<char>, step: u64) -> u32 {
    let d = hmac_sha1_digest(secret, counter_bytes(step));
    let off = (d[19] & 0x0f) as int;
    let b0 = (d[off] & 0x7f) as u32;
    let b1 = d[off + 1] as u32;
    let b2 = d[off + 2] as u32;
    let b3 = d[off + 3] as u32;
    (((b0 << 24u32) | (b1 << 16u32) | (b2 << 8u32) | b3) % 1000000) as u32
}

/// Computes the one-time code for one time step.
fn compute_totp_code(secret: &str, step: u64) -> (r: u32)
    ensures
        r == totp_code(secret@, step),
        r < 1000000,
{
    let mut msg: Vec<u8> = Vec::new();
    proof {
        assert((step >> 56) & 0xff <= 0xff && (step >> 48) & 0xff <= 0xff && (step >> 40) & 0xff
            <= 0xff && (step >> 32) & 0xff <= 0xff && (step >> 24) & 0xff <= 0xff && (step >> 16)
            & 0xff <= 0xff && (step >> 8) & 0xff <= 0xff && step & 0xff <= 0xff) by (bit_vector);
    }
    msg.push(((step >> 56) & 0xff) as u8);
    msg.push(((step >> 48) & 0xff) as u8);
    msg.push(((step >> 40) & 0xff) as u8);
    msg.push(((step >> 32) & 0xff) as u8);
    msg.push(((step >> 24) & 0xff) as u8);
    msg.push(((step >> 16) & 0xff) as u8);
    msg.push(((step >> 8) & 0xff) as u8);
    msg.push((step & 0xff) as u8);
    proof {
        assert(msg@ =~= counter_bytes(step));
    }
    let d = hmac_sha1(secret, msg.as_slice());
    let last = d[19];
    proof {
        assert(last & 0x0f <= 15) by (bit_vector);
    }
    let off = (last & 0x0f) as usize;
    let b0 = (d[off] & 0x7f) as u32;
    let b1 = d[off + 1] as u32;
    let b2 = d[off + 2] as u32;
    let b3 = d[off + 3] as u32;
    ((b0 << 24u32) | (b1 << 16u32) | (b2 << 8u32) | b3) % 1000000
}

/// A submitted code is well formed when it is exactly six decimal digits.
pub open spec fn is_code_format(code: Seq<char>) -> bool {
    code.len() == 6 && all_dec_digits(code)
}

/// Whether a submitted code is accepted for a secret at a given time
/// (seconds): the code must be six digits and equal the one-time code of the
/// current thirty-second time step or of one adjacent step.
pub open spec fn totp_code_accepted(secret: Seq<char>, code: Seq<char>, now: u64) -> bool {
    let step = now / 30;
    &&& is_code_format(code)
    &&& {
        ||| dec_value(code) == totp_code(secret, step)
        ||| (step > 0 && dec_value(code) == totp_code(secret, (step - 1) as u64))
        ||| (step < u64::MAX && dec_value(code) == totp_code(secret, (step + 1) as u64))
    }
}

/// Reads a digit character as a number; `None` when it is not a digit.
fn char_digit(code: &str, i: usize) -> (r: Option<u32>)
    requires
        i < code@.len(),
    ensures
        r matches Some(d) ==> is_dec_digit(code@[i as int]) && d <= 9 && d == code@[i as int] as int
            - '0' as int,
        r is None ==> !is_dec_digit(code@[i as int]),
{
    let c = code.get_char(i);
    if c < '0' || c > '9' {
        None
    } else {
        Some(c as u32 - 48)
    }
}

/// Reads a six-digit code as a number; `None` when malformed.
fn code_to_value(code: &str) -> (r: Option<u32>)
    ensures
        r matches Some(v) ==> is_code_format(code@) && v == dec_value(code@),
        r is None ==> !is_code_format(code@),
{
    if code.unicode_len() != 6 {
        return None;
    }
    let d0 = match char_digit(code, 0) {
        Some(d) => d,
        None => {
            return None;
        },
    };
    let d1 = match char_digit(code, 1) {
        Some(d) => d,
        None => {
            return None;
        },
    };
    let d2 = match char_digit(code, 2) {
        Some(d) => d,
        None => {
            return None;
        },
    };
    let d3 = match char_digit(code, 3) {
        Some(d) => d,
        None => {
            return None;
        },
    };
    let d4 = match char_digit(code, 4) {
        Some(d) => d,
        None => {
            return None;
        },
    };
    let d5 = match char_digit(code, 5) {
        Some(d) => d,
        None => {
            return None;
        },
    };
    let value = d0 * 100000 + d1 * 10000 + d2 * 1000 + d3 * 100 + d4 * 10 + d5;
    proof {
        reveal_with_fuel(dec_value, 8);
        let s = code@;
        assert(s.subrange(0, 6) =~= s);
        assert(s.subrange(0, 6).drop_last() =~= s.subrange(0, 5));
        assert(s.subrange(0, 5).drop_last() =~= s.subrange(0, 4));
        assert(s.subrange(0, 4).drop_last() =~= s.subrange(0, 3));
        assert(s.subrange(0, 3).drop_last() =~= s.subrange(0, 2));
        assert(s.subrange(0, 2).drop_last() =~= s.subrange(0, 1));
        assert(s.subrange(0, 1).drop_last() =~= s.subrange(0, 0));
        assert(dec_value(s.subrange(0, 0)) == 0);
        assert(forall|i: int| 0 <= i < 6 ==> is_dec_digit(#[trigger] s[i]));
    }
    Some(value)
}

/// Checks a submitted one-time code for a secret against the given clock
/// reading (seconds). The code is compared numerically, so the comparison
/// does not depend on which characters differ.
pub fn verify_totp_code_at(secret: &str, code: &str, now: u64) -> (r: bool)
    ensures
        r == totp_code_accepted(secret@, code@, now),
{
    let value = match code_to_value(code) {
        Some(v) => v,
        None => {
            return false;
        },
    };
    let step = now / 30;
    if value == compute_totp_code(secret, step) {
        return true;
    }
    if step > 0 && value == compute_totp_code(secret, step - 1) {
        return true;
    }
    if step < u64::MAX && value == compute_totp_code(secret, step + 1) {
        return true;
    }
    false
}

/// The provisioning URI that enrollment displays for scanning.
pub open spec fn otpauth_uri(issuer: Seq<char>, username: Seq<char>, secret: Seq<char>) -> Seq<
    char,
> {
    "otpauth://totp/"@ + issuer + ":"@ + username + "?secret="@ + secret + "&issuer="@ + issuer
}

/// Generates fresh enrollment material for a user: a random secret, the
/// provisioning URI for it, and the secret again as the manual-entry key.
pub fn generate_totp_secret(username: &str, issuer: &str) -> (r: TotpSetup)
    ensures
        r.secret@.len() == 32,
        forall|i: int| 0 <= i < 32 ==> is_lower_hex(#[trigger] r.secret@[i]),
        r.manual_entry_key@ == r.secret@,
        r.qr_code@ == otpauth_uri(issuer@, username@, r.secret@),
{
    let secret = fresh_hex_token();
    let mut uri = String::from_str("otpauth://totp/");
    uri.append(issuer);
    uri.append(":");
    uri.append(username);
    uri.append("?secret=");
    uri.append(secret.as_str());
    uri.append("&issuer=");
    uri.append(issuer);
    proof {
        assert(uri@ =~= otpauth_uri(issuer@, username@, secret@));
    }
    let manual_entry_key = secret.clone();
    TotpSetup { secret, qr_code: uri, manual_entry_key }
}

/// The uppercase counterpart of a lowercase hexadecimal character.
pub open spec fn upper_hex_char(c: char) -> char {
    if c == 'a' {
        'A'
    } else if c == 'b' {
        'B'
    } else if c == 'c' {
        'C'
    } else if c == 'd' {
        'D'
    } else if c == 'e' {
        'E'
    } else if c == 'f' {
        'F'
    } else {
        c
    }
}

/// A backup code is eight uppercase hexadecimal characters.
pub open spec fn is_backup_code(s: Seq<char>) -> bool {
    s.len() == 8 && forall|i: int| 0 <= i < 8 ==> is_upper_hex(#[trigger] s[i])
}

/// One uppercase hexadecimal character as a borrowed string.
fn upper_hex_str(c: char) -> (r: &'static str)
    requires
        is_lower_hex(c),
    ensures
        r@ =~= seq![upper_hex_char(c)],
        is_upper_hex(upper_hex_char(c)),
{
    proof {
        reveal_strlit("0");
        reveal_strlit("1");
        reveal_strlit("2");
        reveal_strlit("3");
        reveal_strlit("4");
        reveal_strlit("5");
        reveal_strlit("6");
        reveal_strlit("7");
        reveal_strlit("8");
        reveal_strlit("9");
        reveal_strlit("A");
        reveal_strlit("B");
        reveal_strlit("C");
        reveal_strlit("D");
        reveal_strlit("E");
        reveal_strlit("F");
    }
    match c {
        '0' => "0",
        '1' => "1",
        '2' => "2",
        '3' => "3",
        '4' => "4",
        '5' => "5",
        '6' => "6",
        '7' => "7",
        '8' => "8",
        '9' => "9",
        'a' => "A",
        'b' => "B",
        'c' => "C",
        'd' => "D",
        'e' => "E",
        _ => {
            proof {
                assert(c == 'f');
            }
            "F"
        },
    }
}

/// Generates the fixed set of one-time backup codes handed out at
/// enrollment: eight codes of eight uppercase hexadecimal characters, each
/// derived from a fresh random token.
pub fn generate_backup_codes() -> (r: Vec<String>)
    ensures
        r@.len() == 8,
        forall|i: int| 0 <= i < 8 ==> is_backup_code(#[trigger] r@[i]@),
{
    let mut codes: Vec<String> = Vec::new();
    let mut k: usize = 0;
    while k < 8
        invariant
            0 <= k <= 8,
            codes@.len() == k,
            forall|i: int| 0 <= i < k ==> is_backup_code(#[trigger] codes@[i]@),
        decreases 8 - k,
    {
        let raw = fresh_hex_token();
        let mut code = String::new();
        let mut j: usize = 0;
        while j < 8
            invariant
                0 <= j <= 8,
                code@.len() == j,
                forall|i: int| 0 <= i < j ==> is_upper_hex(#[trigger] code@[i]),
                raw@.len() == 32,
                forall|i: int| 0 <= i < 32 ==> is_lower_hex(#[trigger] raw@[i]),
            decreases 8 - j,
        {
            let c = raw.get_char(j);
            code.append(upper_hex_str(c));
            j = j + 1;
        }
        codes.push(code);
        k = k + 1;
    }
    codes
}

/// Checks a submitted one-time code for a secret against the current clock.
pub fn verify_totp_code(secret: &str, code: &str) -> (r: bool)
    ensures
        r ==> exists|now: u64| #[trigger] totp_code_accepted(secret@, code@, now),
        r ==> is_code_format(code@),
{
    let now = crate::clock::current_timestamp();
    if now < 0 {
        return false;
    }
    verify_totp_code_at(secret, code, now as u64)
}

} // verus!
