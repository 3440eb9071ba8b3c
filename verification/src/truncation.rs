//! Dynamic truncation: from a keyed-hash digest to a short decimal code.
//!
//! The low four bits of the digest's last byte choose an offset; the four
//! bytes from that offset on, read as a big-endian number with the top bit
//! cleared, are the truncated value; the code is that value modulo a power of
//! ten, written to a fixed width.

use vstd::prelude::*;
use crate::error::OtpError;
use crate::decimal::{
    decimal_digits, decimal_value, is_decimal_digit, pow10, power_of_ten, zero_padded,
    lemma_decimal_digits_shape, lemma_decimal_digits_value, lemma_pow10_positive,
};
use vstd::arithmetic::div_mod::{lemma_mod_bound, lemma_small_mod};

verus! {

/// Whether `len` is the digest length of a supported keyed hash.
pub open spec fn is_digest_len(len: nat) -> bool {
    len == 20 || len == 32 || len == 64
}

/// The offset that a digest chooses: the low four bits of its last byte.
pub open spec fn truncation_offset(hs: Seq<u8>) -> int
    recommends
        hs.len() > 0,
{
    hs.last() as int % 16
}

/// The four bytes from `offset` on, read as a big-endian number.
pub open spec fn window_value(hs: Seq<u8>, offset: int) -> nat
    recommends
        0 <= offset,
        offset + 4 <= hs.len(),
{
    (hs[offset] as nat) * 0x100_0000 + (hs[offset + 1] as nat) * 0x1_0000 + (hs[offset + 2] as nat)
        * 0x100 + (hs[offset + 3] as nat)
}

/// The window at `offset` without its top bit: a number below 2^31.
pub open spec fn truncated_value(hs: Seq<u8>, offset: int) -> nat
    recommends
        0 <= offset,
        offset + 4 <= hs.len(),
{
    window_value(hs, offset) % 0x8000_0000
}

/// What reading the window at `offset` gives: the truncated value where the
/// window lies inside the digest, and `TruncationOutOfRange` where it does
/// not.
pub open spec fn window_result(hs: Seq<u8>, offset: nat) -> Result<u32, OtpError> {
    if offset + 4 <= hs.len() {
        Ok(truncated_value(hs, offset as int) as u32)
    } else {
        Err(OtpError::TruncationOutOfRange)
    }
}

/// The number that a digest's code writes: the truncated value at the
/// digest's own offset, modulo ten to the number of digits.
pub open spec fn code_number(hs: Seq<u8>, digits: nat) -> nat
    recommends
        is_digest_len(hs.len()),
{
    truncated_value(hs, truncation_offset(hs)) % pow10(digits)
}

/// The code of a digest: its code number written to `digits` characters.
pub open spec fn truncation_code(hs: Seq<u8>, digits: nat) -> Seq<char>
    recommends
        is_digest_len(hs.len()),
{
    decimal_digits(code_number(hs, digits), digits)
}

/// What truncating a digest gives: its code where the digest is 20, 32 or 64
/// bytes long, and `InvalidDigestLength` for every other length.
pub open spec fn truncation_result(hs: Seq<u8>, digits: nat) -> Result<Seq<char>, OtpError> {
    if is_digest_len(hs.len()) {
        Ok(truncation_code(hs, digits))
    } else {
        Err(OtpError::InvalidDigestLength)
    }
}

/// A result with its text taken by its characters.
pub open spec fn code_view(code: Result<String, OtpError>) -> Result<Seq<char>, OtpError> {
    match code {
        Ok(text) => Ok(text@),
        Err(error) => Err(error),
    }
}

/// In a digest of a supported length the offset is at most 15, and the
/// window it chooses lies inside the digest.
pub proof fn lemma_window_in_bounds(hs: Seq<u8>)
    requires
        is_digest_len(hs.len()),
    ensures
        0 <= truncation_offset(hs) <= 15,
        truncation_offset(hs) + 4 <= hs.len(),
        window_result(hs, truncation_offset(hs) as nat) is Ok,
{
}

/// The truncated value has 31 bits.
pub proof fn lemma_truncated_value_bound(hs: Seq<u8>, offset: int)
    ensures
        truncated_value(hs, offset) < 0x8000_0000,
{
}

/// For a digest of a supported length truncation succeeds. The code has
/// exactly `digits` characters, each a decimal digit, and the number it
/// writes is the digest's code number, which is below ten to the power
/// `digits`.
pub proof fn lemma_truncation_code_shape(hs: Seq<u8>, digits: nat)
    requires
        is_digest_len(hs.len()),
    ensures
        truncation_result(hs, digits) == Ok::<Seq<char>, OtpError>(truncation_code(hs, digits)),
        truncation_code(hs, digits).len() == digits,
        forall|i: int|
            0 <= i < digits ==> is_decimal_digit(#[trigger] truncation_code(hs, digits)[i]),
        decimal_value(truncation_code(hs, digits)) == code_number(hs, digits),
        code_number(hs, digits) < pow10(digits),
{
    let number = code_number(hs, digits);
    lemma_pow10_positive(digits);
    lemma_mod_bound(truncated_value(hs, truncation_offset(hs)) as int, pow10(digits) as int);
    lemma_small_mod(number, pow10(digits));
    lemma_decimal_digits_shape(number, digits);
    lemma_decimal_digits_value(number, digits);
}

/// Truncation depends on nothing but the digest's bytes and the number of
/// digits: two digests with the same bytes have the same result.
pub proof fn lemma_truncation_deterministic(first: Seq<u8>, second: Seq<u8>, digits: nat)
    requires
        first.len() == second.len(),
        forall|i: int| 0 <= i < first.len() ==> first[i] == second[i],
    ensures
        truncation_result(first, digits) == truncation_result(second, digits),
{
    assert(first =~= second);
}

/// A digest of any other length than 20, 32 or 64 bytes is refused, and a
/// digest of one of these lengths never is.
pub proof fn lemma_truncation_fails_on_other_lengths(hs: Seq<u8>, digits: nat)
    ensures
        !is_digest_len(hs.len()) <==> truncation_result(hs, digits) is Err,
        !is_digest_len(hs.len()) ==> truncation_result(hs, digits) == Err::<Seq<char>, OtpError>(
            OtpError::InvalidDigestLength,
        ),
{
}

/// Reads the four bytes of `hs` from `offset` on as a big-endian number and
/// clears its top bit. Fails with `TruncationOutOfRange` where these four
/// bytes do not all lie inside `hs`.
pub fn truncation_window(hs: &[u8], offset: usize) -> (value: Result<u32, OtpError>)
    ensures
        value == window_result(hs@, offset as nat),
{
    if hs.len() < 4 || offset > hs.len() - 4 {
        return Err(OtpError::TruncationOutOfRange);
    }
    let b0: u32 = hs[offset] as u32;
    let b1: u32 = hs[offset + 1] as u32;
    let b2: u32 = hs[offset + 2] as u32;
    let b3: u32 = hs[offset + 3] as u32;
    let word: u32 = (b0 << 24) | (b1 << 16) | (b2 << 8) | b3;
    let value: u32 = word & 0x7FFF_FFFF;
    proof {
        assert(word == b0 * 0x100_0000 + b1 * 0x1_0000 + b2 * 0x100 + b3) by (bit_vector)
            requires
                b0 < 256,
                b1 < 256,
                b2 < 256,
                b3 < 256,
                word == (b0 << 24) | (b1 << 16) | (b2 << 8) | b3,
        ;
        assert(value == word % 0x8000_0000) by (bit_vector)
            requires
                value == word & 0x7FFF_FFFF,
        ;
    }
    Ok(value)
}

/// Reduces a keyed-hash digest to a decimal code of `digits` characters.
///
/// The digest must be 20, 32 or 64 bytes long; any other length fails with
/// `InvalidDigestLength`, whatever the number of digits. The code is the
/// truncated value at the digest's own offset, modulo ten to the power
/// `digits`, with zeros in front up to the width.
pub fn dynamic_truncation(hs: &[u8], digits: u32) -> (code: Result<String, OtpError>)
    requires
        is_digest_len(hs@.len()) ==> 1 <= digits <= 9,
    ensures
        code_view(code) == truncation_result(hs@, digits as nat),
        code is Ok <==> is_digest_len(hs@.len()),
        code matches Err(error) ==> error == OtpError::InvalidDigestLength,
        code matches Ok(text) ==> {
            &&& text@.len() == digits
            &&& forall|i: int| 0 <= i < digits ==> is_decimal_digit(#[trigger] text@[i])
            &&& decimal_value(text@) == code_number(hs@, digits as nat)
            &&& decimal_value(text@) < pow10(digits as nat)
        },
{
    let hs_len = hs.len();
    if hs_len != 20 && hs_len != 32 && hs_len != 64 {
        return Err(OtpError::InvalidDigestLength);
    }
    let last: u8 = hs[hs_len - 1];
    let low: u8 = last & 0x0F;
    assert(low == last % 16) by (bit_vector)
        requires
            low == last & 0x0F,
    ;
    let offset: usize = low as usize;
    match truncation_window(hs, offset) {
        Err(error) => Err(error),
        Ok(value) => {
            let modulus: u32 = power_of_ten(digits);
            proof {
                lemma_pow10_positive(digits as nat);
            }
            let number: u32 = value % modulus;
            proof {
                lemma_small_mod(number as nat, modulus as nat);
            }
            Ok(zero_padded(number, digits))
        },
    }
}

} // verus!
