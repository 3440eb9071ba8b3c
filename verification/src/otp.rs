//! The two generators: counter based (HOTP) and time based (TOTP).

use vstd::prelude::*;
use crate::error::OtpError;
use crate::algorithm::{HashAlgorithm, TotpHashAlgorithm};
use crate::decimal::{decimal_value, is_decimal_digit, pow10};
use crate::keyed_hash::{counter_bytes, generate_hmac, hmac_digest};
use crate::secret::{decode_secret, is_base32_text, is_unpadded_len, is_valid_secret, secret_key};
use crate::truncation::{code_number, code_view, dynamic_truncation, truncation_code};

verus! {

/// The digest that a key and a counter are hashed to.
pub open spec fn hotp_digest(key: Seq<u8>, counter: u64, algorithm: HashAlgorithm) -> Seq<u8> {
    hmac_digest(algorithm, key, counter_bytes(counter))
}

/// The counter-based code: the keyed hash of the counter, truncated.
pub open spec fn hotp_code(key: Seq<u8>, counter: u64, digits: nat, algorithm: HashAlgorithm) -> Seq<
    char,
> {
    truncation_code(hotp_digest(key, counter, algorithm), digits)
}

/// What the counter-based generator gives for a Base32 secret: the code under
/// the decoded key, or `InvalidSecret` where the secret does not decode.
pub open spec fn hotp_result(
    secret: Seq<char>,
    counter: u64,
    digits: nat,
    algorithm: HashAlgorithm,
) -> Result<Seq<char>, OtpError> {
    match secret_key(secret) {
        Some(key) => Ok(hotp_code(key, counter, digits, algorithm)),
        None => Err(OtpError::InvalidSecret),
    }
}

/// The counter that a time stands for: the number of whole steps since the
/// epoch. A step of zero is `InvalidStep`.
pub open spec fn time_counter_result(now_epoch_seconds: u64, step: u64) -> Result<u64, OtpError> {
    if step == 0 {
        Err(OtpError::InvalidStep)
    } else {
        Ok((now_epoch_seconds / step) as u64)
    }
}

/// What the time-based generator gives: `InvalidStep` for a step of zero;
/// otherwise what the counter-based generator gives at the time's counter.
pub open spec fn totp_result(
    secret: Seq<char>,
    step: u64,
    digits: nat,
    algorithm: TotpHashAlgorithm,
    now_epoch_seconds: u64,
) -> Result<Seq<char>, OtpError> {
    match time_counter_result(now_epoch_seconds, step) {
        Err(error) => Err(error),
        Ok(counter) => hotp_result(secret, counter, digits, algorithm.spec_hash_algorithm()),
    }
}

/// With a step of zero the time-based generator fails with `InvalidStep`,
/// whatever the secret, the digits, the algorithm and the time.
pub proof fn lemma_zero_step_is_rejected(
    secret: Seq<char>,
    digits: nat,
    algorithm: TotpHashAlgorithm,
    now_epoch_seconds: u64,
)
    ensures
        totp_result(secret, 0, digits, algorithm, now_epoch_seconds) == Err::<
            Seq<char>,
            OtpError,
        >(OtpError::InvalidStep),
{
}

/// With a step above zero and a secret that does not decode, the time-based
/// generator fails with `InvalidSecret`: the result names no digest.
pub proof fn lemma_malformed_secret_is_rejected(
    secret: Seq<char>,
    step: u64,
    digits: nat,
    algorithm: TotpHashAlgorithm,
    now_epoch_seconds: u64,
)
    requires
        step != 0,
        secret_key(secret) is None,
    ensures
        totp_result(secret, step, digits, algorithm, now_epoch_seconds) == Err::<
            Seq<char>,
            OtpError,
        >(OtpError::InvalidSecret),
{
}

/// With a step above zero and a secret of a length that unpadded Base32
/// cannot have, the time-based generator fails with `InvalidSecret`, whatever
/// the secret's characters, the digits, the algorithm and the time.
pub proof fn lemma_wrong_length_secret_is_rejected(
    secret: Seq<char>,
    step: u64,
    digits: nat,
    algorithm: TotpHashAlgorithm,
    now_epoch_seconds: u64,
)
    requires
        step != 0,
        !is_unpadded_len(secret.len()),
    ensures
        totp_result(secret, step, digits, algorithm, now_epoch_seconds) == Err::<
            Seq<char>,
            OtpError,
        >(OtpError::InvalidSecret),
{
}

/// The time-based code is the counter-based code at the counter
/// `now / step`; so it is the same at all times within one step.
pub proof fn lemma_totp_is_hotp_at_time_counter(
    secret: Seq<char>,
    step: u64,
    digits: nat,
    algorithm: TotpHashAlgorithm,
    now_epoch_seconds: u64,
    later: u64,
)
    requires
        step != 0,
        now_epoch_seconds / step == later / step,
    ensures
        totp_result(secret, step, digits, algorithm, now_epoch_seconds) == hotp_result(
            secret,
            (now_epoch_seconds / step) as u64,
            digits,
            algorithm.spec_hash_algorithm(),
        ),
        totp_result(secret, step, digits, algorithm, now_epoch_seconds) == totp_result(
            secret,
            step,
            digits,
            algorithm,
            later,
        ),
{
}

/// Derives the counter of a time: `now_epoch_seconds / step`, rounded down.
/// A step of zero is refused with `InvalidStep`; nothing is divided then.
pub fn time_counter(now_epoch_seconds: u64, step: u64) -> (counter: Result<u64, OtpError>)
    ensures
        counter == time_counter_result(now_epoch_seconds, step),
{
    if step == 0 {
        Err(OtpError::InvalidStep)
    } else {
        Ok(now_epoch_seconds / step)
    }
}

/// Generates the counter-based code of `digits` characters for a key given
/// as bytes. It always succeeds: the keyed hash takes any key, and its digest
/// has a length that truncation accepts.
pub fn hotp(key: &[u8], counter: u64, digits: u32, algorithm: HashAlgorithm) -> (code: Result<
    String,
    OtpError,
>)
    requires
        1 <= digits <= 9,
    ensures
        code_view(code) == Ok::<Seq<char>, OtpError>(
            hotp_code(key@, counter, digits as nat, algorithm),
        ),
        code matches Ok(text) ==> {
            &&& text@.len() == digits
            &&& forall|i: int| 0 <= i < digits ==> is_decimal_digit(#[trigger] text@[i])
            &&& decimal_value(text@) == code_number(
                hotp_digest(key@, counter, algorithm),
                digits as nat,
            )
            &&& decimal_value(text@) < pow10(digits as nat)
        },
{
    let digest = generate_hmac(key, counter, algorithm);
    dynamic_truncation(digest.as_slice(), digits)
}

/// Generates the counter-based code for a secret given as unpadded Base32.
///
/// Fails with `InvalidSecret` where the secret is not valid, by a character
/// or by its length, and in no other case. The number of digits matters only
/// where a code is written: an invalid secret is refused whatever it is.
pub fn generate_hotp(secret: &str, counter: u64, digits: u32, algorithm: HashAlgorithm) -> (code:
    Result<String, OtpError>)
    requires
        is_valid_secret(secret@) ==> 1 <= digits <= 9,
    ensures
        code_view(code) == hotp_result(secret@, counter, digits as nat, algorithm),
        code is Ok <==> is_valid_secret(secret@),
        !is_base32_text(secret@) ==> code matches Err(OtpError::InvalidSecret),
        code matches Err(error) ==> error == OtpError::InvalidSecret,
        code matches Ok(text) ==> {
            &&& text@.len() == digits
            &&& forall|i: int| 0 <= i < digits ==> is_decimal_digit(#[trigger] text@[i])
            &&& decimal_value(text@) < pow10(digits as nat)
        },
{
    match decode_secret(secret) {
        Err(error) => Err(error),
        Ok(key) => hotp(key.as_slice(), counter, digits, algorithm),
    }
}

/// Generates the time-based code for a secret given as unpadded Base32, at
/// the time `now_epoch_seconds`, counted in seconds since the Unix epoch.
///
/// A step of zero fails with `InvalidStep`, before anything else is looked
/// at. Otherwise a secret that is not valid, by a character or by its
/// length, fails with `InvalidSecret`, before anything is hashed. Otherwise
/// the code is the counter-based code at the counter
/// `now_epoch_seconds / step`. The number of digits matters only where a code
/// is written: both errors come whatever it is.
pub fn totp(
    secret: &str,
    step: u64,
    digits: u32,
    algorithm: TotpHashAlgorithm,
    now_epoch_seconds: u64,
) -> (code: Result<String, OtpError>)
    requires
        step != 0 && is_valid_secret(secret@) ==> 1 <= digits <= 9,
    ensures
        code_view(code) == totp_result(secret@, step, digits as nat, algorithm, now_epoch_seconds),
        step == 0 ==> code matches Err(OtpError::InvalidStep),
        step != 0 && !is_base32_text(secret@) ==> code matches Err(OtpError::InvalidSecret),
        step != 0 && !is_valid_secret(secret@) ==> code matches Err(OtpError::InvalidSecret),
        code is Ok <==> step != 0 && is_valid_secret(secret@),
        code matches Ok(text) ==> {
            &&& text@.len() == digits
            &&& forall|i: int| 0 <= i < digits ==> is_decimal_digit(#[trigger] text@[i])
            &&& decimal_value(text@) < pow10(digits as nat)
        },
{
    match time_counter(now_epoch_seconds, step) {
        Err(error) => Err(error),
        Ok(counter) => generate_hotp(secret, counter, digits, algorithm.hash_algorithm()),
    }
}

} // verus!
