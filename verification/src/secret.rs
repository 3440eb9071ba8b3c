//! The shared secret: from its Base32 text to key bytes.
//!
//! A secret is valid where each of its characters is of the RFC 4648
//! alphabet and its length is one that unpadded Base32 can have. Eight
//! characters stand for five bytes, so a last group of one, three or six
//! characters stands for no whole number of bytes and is refused.

use vstd::prelude::*;
use vstd::utf8::encode_utf8;
use vstd::string::{StrSliceExecFns, StringSliceAdditionalSpecFns};
use crate::error::OtpError;

verus! {

/// What the `base32` crate decodes a text to with the RFC 4648 alphabet and
/// no padding: the bytes, or nothing where it finds a character that is not
/// of the alphabet.
pub uninterp spec fn base32_decoded(secret: Seq<char>) -> Option<Seq<u8>>;

/// Whether a character belongs to the RFC 4648 Base32 alphabet: a capital
/// letter, or a digit from `2` to `7`.
pub open spec fn is_base32_char(c: char) -> bool {
    ('A' <= c && c <= 'Z') || ('2' <= c && c <= '7')
}

/// Whether a text is made of characters of the Base32 alphabet alone.
pub open spec fn is_base32_alphabet(secret: Seq<char>) -> bool {
    forall|i: int| 0 <= i < secret.len() ==> is_base32_char(#[trigger] secret[i])
}

/// Whether `len` characters of unpadded Base32 stand for a whole number of
/// bytes: the last group has none, two, four, five or seven characters.
pub open spec fn is_unpadded_len(len: nat) -> bool {
    len % 8 == 0 || len % 8 == 2 || len % 8 == 4 || len % 8 == 5 || len % 8 == 7
}

/// Whether a text is unpadded RFC 4648 Base32: characters of the alphabet
/// alone, in a length that unpadded Base32 can have.
pub open spec fn is_base32_text(secret: Seq<char>) -> bool {
    is_base32_alphabet(secret) && is_unpadded_len(secret.len())
}

/// Whether a text is short enough to be decoded: five times its length in
/// bytes must fit in a machine word.
pub open spec fn fits_decoder(secret: Seq<char>) -> bool {
    encode_utf8(secret).len() * 5 <= usize::MAX
}

/// Whether a secret is accepted: it is unpadded Base32 and short enough to
/// be decoded.
pub open spec fn is_valid_secret(secret: Seq<char>) -> bool {
    is_base32_text(secret) && fits_decoder(secret)
}

/// A decoded key taken by its bytes.
pub open spec fn key_view(key: Option<Vec<u8>>) -> Option<Seq<u8>> {
    match key {
        Some(bytes) => Some(bytes@),
        None => None,
    }
}

/// The key that a secret stands for, if it stands for one: what the text
/// decodes to, and nothing for a text of a length that unpadded Base32 cannot
/// have or too long to decode.
pub open spec fn secret_key(secret: Seq<char>) -> Option<Seq<u8>> {
    if fits_decoder(secret) && is_unpadded_len(secret.len()) {
        base32_decoded(secret)
    } else {
        None
    }
}

/// What is made of a decoded secret: its key, or `InvalidSecret` where there
/// is none.
pub open spec fn key_result(decoded: Option<Seq<u8>>) -> Result<Seq<u8>, OtpError> {
    match decoded {
        Some(bytes) => Ok(bytes),
        None => Err(OtpError::InvalidSecret),
    }
}

/// A key or an error, the key taken by its bytes.
pub open spec fn key_result_view(key: Result<Vec<u8>, OtpError>) -> Result<Seq<u8>, OtpError> {
    match key {
        Ok(bytes) => Ok(bytes@),
        Err(error) => Err(error),
    }
}

/// A text of a length that unpadded Base32 cannot have stands for no key,
/// whatever its characters; so does a text too long to decode.
pub proof fn lemma_invalid_length_has_no_key(secret: Seq<char>)
    requires
        !is_unpadded_len(secret.len()) || !fits_decoder(secret),
    ensures
        secret_key(secret) is None,
        !is_valid_secret(secret),
        key_result(secret_key(secret)) == Err::<Seq<u8>, OtpError>(OtpError::InvalidSecret),
{
}

/// The lengths that are refused are those that leave one, three or six
/// characters in the last group of eight.
pub proof fn lemma_unpadded_len_residues(len: nat)
    ensures
        !is_unpadded_len(len) <==> (len % 8 == 1 || len % 8 == 3 || len % 8 == 6),
{
}

/// Calls `base32::decode` with `Alphabet::Rfc4648 { padding: false }`.
/// Trusted: what comes back is a function of the text alone; there are bytes
/// exactly where every character is of the alphabet, the decoder looking each
/// one up and giving up at the first it does not find; and the bytes are five
/// eighths of the characters, rounded down. The decoder multiplies the text's
/// length in bytes by five, so longer texts are left out.
#[verifier::external_body]
fn base32_decode(secret: &str) -> (key: Option<Vec<u8>>)
    requires
        fits_decoder(secret@),
    ensures
        key_view(key) == base32_decoded(secret@),
        key is Some <==> is_base32_alphabet(secret@),
        key matches Some(bytes) ==> bytes@.len() == secret@.len() * 5 / 8,
{
    base32::decode(base32::Alphabet::Rfc4648 { padding: false }, secret)
}

/// Turns what the decoder gave into a key: a missing result is an invalid
/// secret.
pub fn key_from_decoded(decoded: Option<Vec<u8>>) -> (key: Result<Vec<u8>, OtpError>)
    ensures
        key_result_view(key) == key_result(key_view(decoded)),
{
    match decoded {
        Some(bytes) => Ok(bytes),
        None => Err(OtpError::InvalidSecret),
    }
}

/// Whether a text has a length that unpadded Base32 can have and is short
/// enough to decode. The characters are not looked at.
pub fn has_decodable_len(secret: &str) -> (decodable: bool)
    ensures
        decodable == (is_unpadded_len(secret@.len()) && fits_decoder(secret@)),
{
    let bytes = secret.as_bytes();
    if bytes.len() > usize::MAX / 5 {
        return false;
    }
    let rest: usize = secret.unicode_len() % 8;
    rest != 1 && rest != 3 && rest != 6
}

/// Decodes a secret from unpadded RFC 4648 Base32.
///
/// Fails with `InvalidSecret` where the text holds a character outside the
/// alphabet, where its length leaves one, three or six characters in the
/// last group of eight, and where it is too long to decode. The length is
/// judged first: a text of a wrong length is not handed to the decoder.
pub fn decode_secret(secret: &str) -> (key: Result<Vec<u8>, OtpError>)
    ensures
        key_result_view(key) == key_result(secret_key(secret@)),
        key is Ok <==> is_valid_secret(secret@),
        key matches Err(error) ==> error == OtpError::InvalidSecret,
        key matches Ok(bytes) ==> bytes@.len() == secret@.len() * 5 / 8,
{
    if !has_decodable_len(secret) {
        return Err(OtpError::InvalidSecret);
    }
    key_from_decoded(base32_decode(secret))
}

} // verus!
