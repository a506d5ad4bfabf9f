//! The outside primitives the library relies on: URL-safe base64, SHA-256,
//! XChaCha20-Poly1305, the operating system's random source, constant-time
//! comparison, time-ordered identifiers, Argon2id, and calendar days.

use vstd::prelude::*;
use base64::Engine;
use chacha20poly1305::aead::{Aead, KeyInit, Payload};
use rand::TryRngCore;
use sha2::Digest;
use argon2::PasswordHasher;
use argon2::PasswordVerifier;
use crate::auth::Argon2Params;

verus! {

/// What `URL_SAFE_NO_PAD.encode` returns for these bytes.
pub uninterp spec fn spec_base64_url_encode(bytes: Seq<u8>) -> Seq<char>;

/// What `URL_SAFE_NO_PAD.decode` returns for this text (`None` for a decode error).
pub uninterp spec fn spec_base64_url_decode(text: Seq<char>) -> Option<Seq<u8>>;

/// A character of the URL-safe base64 alphabet: `A`-`Z`, `a`-`z`,
/// `0`-`9`, `-` and `_`.
pub open spec fn url_safe_base64_char(c: char) -> bool {
    ('A' <= c && c <= 'Z') || ('a' <= c && c <= 'z') || ('0' <= c && c <= '9') || c == '-' || c == '_'
}

/// base64 `URL_SAFE_NO_PAD.encode`: the unpadded URL-safe encoding. The
/// contract names the result and states what the engine documents of it:
/// four characters for each three bytes, two or three for a final one or
/// two bytes, no padding, only characters of the URL-safe alphabet, and
/// decoding it gives the bytes back, since the encoding is canonical.
#[verifier::external_body]
pub(crate) fn base64_url_encode(bytes: &[u8]) -> (text: String)
    requires
        bytes@.len() <= usize::MAX / 2,
    ensures
        text@ == spec_base64_url_encode(bytes@),
        text@.len() == (4 * bytes@.len() + 2) / 3,
        forall|i: int| 0 <= i < text@.len() ==> url_safe_base64_char(#[trigger] text@[i]),
        spec_base64_url_decode(text@) == Some(bytes@),
{
    base64::engine::general_purpose::URL_SAFE_NO_PAD.encode(bytes)
}

/// base64 `URL_SAFE_NO_PAD.decode`: the decoded bytes, or `None` when the
/// text is not unpadded URL-safe base64.
#[verifier::external_body]
pub(crate) fn base64_url_decode(text: &str) -> (bytes: Option<Vec<u8>>)
    ensures
        match bytes {
            Some(b) => spec_base64_url_decode(text@) == Some(b@),
            None => spec_base64_url_decode(text@) is None,
        },
{
    base64::engine::general_purpose::URL_SAFE_NO_PAD.decode(text).ok()
}

/// The SHA-256 digest of these bytes.
pub uninterp spec fn spec_sha256(bytes: Seq<u8>) -> Seq<u8>;

/// sha2 `Sha256::digest`: the 32-byte digest.
#[verifier::external_body]
pub(crate) fn sha256(bytes: &[u8]) -> (digest: Vec<u8>)
    ensures
        digest@ == spec_sha256(bytes@),
        digest@.len() == 32,
{
    sha2::Sha256::digest(bytes).to_vec()
}

/// The ciphertext (with its tag) that XChaCha20-Poly1305 produces.
pub uninterp spec fn spec_xchacha_seal(key: Seq<u8>, nonce: Seq<u8>, message: Seq<u8>, aad: Seq<u8>) -> Seq<u8>;

/// The plaintext that XChaCha20-Poly1305 recovers, `None` when authentication fails.
pub uninterp spec fn spec_xchacha_open(key: Seq<u8>, nonce: Seq<u8>, ciphertext: Seq<u8>, aad: Seq<u8>) -> Option<Seq<u8>>;

/// chacha20poly1305 `XChaCha20Poly1305::encrypt`: the sealed message, or
/// `None` when the message is too long for the cipher (64 bytes times
/// 2^32 - 1 or more, the check in `Cipher::encrypt_in_place_detached`; the
/// lengths always fit the 64-bit length block). Opening the result with the
/// same key, nonce and associated data gives the message back.
#[verifier::external_body]
pub(crate) fn xchacha_seal(key: &[u8; 32], nonce: &[u8], message: &[u8], aad: &[u8]) -> (sealed: Option<Vec<u8>>)
    requires
        nonce@.len() == 24,
    ensures
        sealed is Some <==> message@.len() / 64 < 0xFFFF_FFFF,
        sealed matches Some(c) ==> c@ == spec_xchacha_seal(key@, nonce@, message@, aad@)
            && spec_xchacha_open(key@, nonce@, c@, aad@) == Some(message@),
{
    let cipher = chacha20poly1305::XChaCha20Poly1305::new(&(*key).into());
    cipher.encrypt(chacha20poly1305::XNonce::from_slice(nonce), Payload { msg: message, aad }).ok()
}

/// chacha20poly1305 `XChaCha20Poly1305::decrypt`: the authenticated
/// plaintext, or `None`.
#[verifier::external_body]
pub(crate) fn xchacha_open(key: &[u8; 32], nonce: &[u8], ciphertext: &[u8], aad: &[u8]) -> (opened: Option<Vec<u8>>)
    requires
        nonce@.len() == 24,
    ensures
        match opened {
            Some(m) => spec_xchacha_open(key@, nonce@, ciphertext@, aad@) == Some(m@),
            None => spec_xchacha_open(key@, nonce@, ciphertext@, aad@) is None,
        },
{
    let cipher = chacha20poly1305::XChaCha20Poly1305::new(&(*key).into());
    cipher.decrypt(chacha20poly1305::XNonce::from_slice(nonce), Payload { msg: ciphertext, aad }).ok()
}

/// rand `OsRng::try_fill_bytes`: bytes from the operating system, or `None`
/// when the source fails. Nothing is stated about their values.
#[verifier::external_body]
pub(crate) fn os_random_bytes(len: usize) -> (bytes: Option<Vec<u8>>)
    ensures
        bytes matches Some(b) ==> b@.len() == len,
{
    let mut buffer = vec![0u8; len];
    match rand::rngs::OsRng.try_fill_bytes(&mut buffer) {
        Ok(()) => Some(buffer),
        Err(_) => None,
    }
}

/// constant_time_eq `constant_time_eq`: whether the two byte strings are equal.
#[verifier::external_body]
pub(crate) fn bytes_equal_constant_time(a: &[u8], b: &[u8]) -> (equal: bool)
    ensures
        equal == (a@ == b@),
{
    constant_time_eq::constant_time_eq(a, b)
}

/// The version 7 UUID, as its 128-bit value, that this Unix time in
/// milliseconds and these ten counter and random bytes `r` make: from the
/// top, the time cut to 48 bits, the version 7, the low four bits of
/// `r[0]` and all of `r[1]`, the variant bits `10`, the low six bits of
/// `r[2]`, and `r[3]` to `r[9]`.
pub open spec fn spec_uuid_v7(unix_millis: u64, r: Seq<u8>) -> u128 {
    ((unix_millis % 0x1_0000_0000_0000) * 0x1_0000_0000_0000_0000_0000
        + 7 * 0x1000_0000_0000_0000_0000
        + ((r[0] % 16) * 0x100 + r[1]) * 0x1_0000_0000_0000_0000
        + 2 * 0x4000_0000_0000_0000
        + (r[2] % 64) * 0x100_0000_0000_0000
        + r[3] * 0x1_0000_0000_0000 + r[4] * 0x100_0000_0000 + r[5] * 0x1_0000_0000
        + r[6] * 0x100_0000 + r[7] * 0x1_0000 + r[8] * 0x100 + r[9]) as u128
}

/// uuid `Builder::from_unix_timestamp_millis` followed by `into_uuid` and
/// `as_u128`: the builder lays the time and the bytes out as
/// `spec_uuid_v7` says (uuid's `encode_unix_timestamp_millis` and
/// `Uuid::from_fields`, read big-endian); it never fails.
#[verifier::external_body]
pub(crate) fn uuid_v7_from_parts(unix_millis: u64, random: &[u8; 10]) -> (id: u128)
    ensures
        id == spec_uuid_v7(unix_millis, random@),
{
    uuid::Builder::from_unix_timestamp_millis(unix_millis, random).into_uuid().as_u128()
}

/// std `String::from_utf8`: the text these bytes encode, or `None` when
/// they are not UTF-8.
#[verifier::external_body]
pub(crate) fn string_from_utf8(bytes: Vec<u8>) -> (text: Option<String>)
    ensures
        text is Some <==> vstd::utf8::valid_utf8(bytes@),
        text matches Some(t) ==> t@ == vstd::utf8::decode_utf8(bytes@),
{
    String::from_utf8(bytes).ok()
}

/// The PHC string that Argon2id v0x13 with the parameters
/// (memory cost, passes, lanes, output length) gives for this password and
/// salt, `None` when hashing fails (such as for an unusable salt or
/// parameters argon2 rejects).
pub uninterp spec fn spec_argon2id_hash(password: Seq<u8>, salt: Seq<u8>, params: (u32, u32, u32, Option<usize>)) -> Option<Seq<char>>;

/// argon2 `Argon2::hash_password` with Argon2id v0x13 and the given
/// parameters (passed one for one to `Params::new`), the salt given as raw
/// bytes (encoded with `SaltString::encode_b64`), the hash rendered as its
/// PHC string. The password-hash traits promise the round trip: the string
/// verifies the same password (`PasswordVerifier` recomputes it with the
/// string's own salt and parameters), and it reads back as `argon2id`,
/// version 0x13, with the parameters it was made with (the output length
/// being the one asked for, 32 bytes by default, and no key identifier or
/// associated data).
#[verifier::external_body]
pub(crate) fn argon2id_hash(password: &[u8], salt: &[u8], params: Argon2Params) -> (phc: Option<String>)
    requires
        params.keyid_len == 0,
        params.data_len == 0,
    ensures
        match phc {
            Some(p) => spec_argon2id_hash(password@, salt@, (params.m_cost, params.t_cost, params.p_cost, params.output_len)) == Some(p@),
            None => spec_argon2id_hash(password@, salt@, (params.m_cost, params.t_cost, params.p_cost, params.output_len)) is None,
        },
        phc matches Some(p) ==> spec_argon2_verifies(p@, password@),
        phc matches Some(p) ==> spec_phc_fields(p@) == Some((
            "argon2id"@,
            Some(0x13u32),
            Some((params.m_cost, params.t_cost, params.p_cost, Some(match params.output_len {
                Some(n) => n,
                None => 32usize,
            }), 0usize, 0usize)),
        )),
{
    let salt = argon2::password_hash::SaltString::encode_b64(salt).ok()?;
    let params = argon2::Params::new(params.m_cost, params.t_cost, params.p_cost, params.output_len).ok()?;
    let hasher = argon2::Argon2::new(argon2::Algorithm::Argon2id, argon2::Version::V0x13, params);
    hasher.hash_password(password, &salt).ok().map(|hash| hash.to_string())
}

/// Whether the password hashes to the stored PHC string under the string's
/// own algorithm, version, salt and parameters (false when the string does
/// not parse).
pub uninterp spec fn spec_argon2_verifies(phc: Seq<char>, password: Seq<u8>) -> bool;

/// argon2 `PasswordVerifier::verify_password` against the parsed
/// `PasswordHash`: it recomputes the hash with the stored hash's own
/// algorithm, version, parameters and salt, so the hasher brings no
/// settings of its own.
#[verifier::external_body]
pub(crate) fn argon2_verifies(phc: &str, password: &[u8]) -> (matched: bool)
    ensures
        matched == spec_argon2_verifies(phc@, password@),
{
    match argon2::PasswordHash::new(phc) {
        Ok(parsed) => argon2::Argon2::default().verify_password(password, &parsed).is_ok(),
        Err(_) => false,
    }
}

/// The fields of a PHC string: its algorithm identifier, its version, and
/// its Argon2 parameters (m, t, p, output length, and the lengths of the
/// key identifier and associated data) when they read as Argon2
/// parameters; `None` when the string does not parse.
pub uninterp spec fn spec_phc_fields(phc: Seq<char>) -> Option<(Seq<char>, Option<u32>, Option<(u32, u32, u32, Option<usize>, usize, usize)>)>;

/// password-hash `PasswordHash::new`, with argon2 `Params::try_from` for
/// the parameters.
#[verifier::external_body]
pub(crate) fn phc_fields(phc: &str) -> (fields: Option<(String, Option<u32>, Option<Argon2Params>)>)
    ensures
        match fields {
            None => spec_phc_fields(phc@) is None,
            Some((algorithm, version, params)) => spec_phc_fields(phc@) == Some((algorithm@, version, match params {
                Some(p) => Some((p.m_cost, p.t_cost, p.p_cost, p.output_len, p.keyid_len, p.data_len)),
                None => None,
            })),
        },
{
    let parsed = argon2::PasswordHash::new(phc).ok()?;
    let params = argon2::Params::try_from(&parsed).ok().map(|p| Argon2Params {
        m_cost: p.m_cost(),
        t_cost: p.t_cost(),
        p_cost: p.p_cost(),
        output_len: p.output_len(),
        keyid_len: p.keyid().len(),
        data_len: p.data().len(),
    });
    Some((parsed.algorithm.as_str().to_owned(), parsed.version.map(|v| v.into()), params))
}


/// The Julian day before this one in the `time` crate's calendar, which
/// (without its `large-dates` feature, which this crate does not enable) runs from
/// -9999-01-01, day -1_930_999, to 9999-12-31, day 5_373_484: `None` for a
/// day outside that range or for its first day.
pub open spec fn spec_previous_day(julian_day: i32) -> Option<i32> {
    if -1_930_999 < julian_day && julian_day <= 5_373_484 {
        Some((julian_day - 1) as i32)
    } else {
        None
    }
}

/// time `Date::previous_day`, on a date given and returned as its Julian
/// day number (`Date::from_julian_day`, which refuses a day outside the
/// calendar's range, and `Date::to_julian_day`): the day one before, for
/// every day of the range but its first.
#[verifier::external_body]
pub(crate) fn previous_day(julian_day: i32) -> (previous: Option<i32>)
    ensures
        previous == spec_previous_day(julian_day),
{
    match time::Date::from_julian_day(julian_day) {
        Ok(date) => match date.previous_day() {
            Some(day) => Some(day.to_julian_day()),
            None => None,
        },
        Err(_) => None,
    }
}

} // verus!
