//! The keyed hash engine: HMAC over the eight bytes of a counter.

use vstd::prelude::*;
use hmac::{Hmac, Mac};
use sha1::Sha1;
use sha2::{Sha256, Sha512};
use crate::algorithm::HashAlgorithm;

verus! {

/// The HMAC-SHA-1 tag of `message` under `key`, as the `hmac` and `sha1`
/// crates compute it.
pub uninterp spec fn hmac_sha1_digest(key: Seq<u8>, message: Seq<u8>) -> Seq<u8>;

/// The HMAC-SHA-256 tag of `message` under `key`, as the `hmac` and `sha2`
/// crates compute it.
pub uninterp spec fn hmac_sha256_digest(key: Seq<u8>, message: Seq<u8>) -> Seq<u8>;

/// The HMAC-SHA-512 tag of `message` under `key`, as the `hmac` and `sha2`
/// crates compute it.
pub uninterp spec fn hmac_sha512_digest(key: Seq<u8>, message: Seq<u8>) -> Seq<u8>;

/// The HMAC tag of `message` under `key` with the chosen hash function.
pub open spec fn hmac_digest(algorithm: HashAlgorithm, key: Seq<u8>, message: Seq<u8>) -> Seq<u8> {
    match algorithm {
        HashAlgorithm::Sha1 => hmac_sha1_digest(key, message),
        HashAlgorithm::Sha256 => hmac_sha256_digest(key, message),
        HashAlgorithm::Sha512 => hmac_sha512_digest(key, message),
    }
}

/// The eight bytes of a counter, most significant first.
pub open spec fn counter_bytes(counter: u64) -> Seq<u8> {
    seq![
        (counter / 0x100_0000_0000_0000) as u8,
        (counter / 0x1_0000_0000_0000 % 0x100) as u8,
        (counter / 0x100_0000_0000 % 0x100) as u8,
        (counter / 0x1_0000_0000 % 0x100) as u8,
        (counter / 0x100_0000 % 0x100) as u8,
        (counter / 0x1_0000 % 0x100) as u8,
        (counter / 0x100 % 0x100) as u8,
        (counter % 0x100) as u8,
    ]
}

/// The number that eight bytes write, most significant first.
pub open spec fn big_endian_value(bytes: Seq<u8>) -> nat
    recommends
        bytes.len() == 8,
{
    (bytes[0] as nat) * 0x100_0000_0000_0000 + (bytes[1] as nat) * 0x1_0000_0000_0000 + (
    bytes[2] as nat) * 0x100_0000_0000 + (bytes[3] as nat) * 0x1_0000_0000 + (bytes[4] as nat)
        * 0x100_0000 + (bytes[5] as nat) * 0x1_0000 + (bytes[6] as nat) * 0x100 + (bytes[7] as nat)
}

/// A counter's bytes are eight, and read back they give the counter: no two
/// counters are hashed as the same message.
pub proof fn lemma_counter_bytes_round_trip(counter: u64)
    ensures
        counter_bytes(counter).len() == 8,
        big_endian_value(counter_bytes(counter)) == counter,
{
    let c = counter;
    assert(c == (c / 0x100_0000_0000_0000) * 0x100_0000_0000_0000 + (c / 0x1_0000_0000_0000
        % 0x100) * 0x1_0000_0000_0000 + (c / 0x100_0000_0000 % 0x100) * 0x100_0000_0000 + (c
        / 0x1_0000_0000 % 0x100) * 0x1_0000_0000 + (c / 0x100_0000 % 0x100) * 0x100_0000 + (c
        / 0x1_0000 % 0x100) * 0x1_0000 + (c / 0x100 % 0x100) * 0x100 + c % 0x100) by (bit_vector);
}

/// Writes a counter as its eight bytes, most significant first.
pub fn counter_to_bytes(counter: u64) -> (bytes: Vec<u8>)
    ensures
        bytes@ == counter_bytes(counter),
{
    let b0: u8 = (counter >> 56) as u8;
    let b1: u8 = (counter >> 48) as u8;
    let b2: u8 = (counter >> 40) as u8;
    let b3: u8 = (counter >> 32) as u8;
    let b4: u8 = (counter >> 24) as u8;
    let b5: u8 = (counter >> 16) as u8;
    let b6: u8 = (counter >> 8) as u8;
    let b7: u8 = counter as u8;
    proof {
        assert((counter >> 56) as u8 == (counter / 0x100_0000_0000_0000) as u8) by (bit_vector);
        assert((counter >> 48) as u8 == (counter / 0x1_0000_0000_0000 % 0x100) as u8)
            by (bit_vector);
        assert((counter >> 40) as u8 == (counter / 0x100_0000_0000 % 0x100) as u8)
            by (bit_vector);
        assert((counter >> 32) as u8 == (counter / 0x1_0000_0000 % 0x100) as u8) by (bit_vector);
        assert((counter >> 24) as u8 == (counter / 0x100_0000 % 0x100) as u8) by (bit_vector);
        assert((counter >> 16) as u8 == (counter / 0x1_0000 % 0x100) as u8) by (bit_vector);
        assert((counter >> 8) as u8 == (counter / 0x100 % 0x100) as u8) by (bit_vector);
        assert(counter as u8 == (counter % 0x100) as u8) by (bit_vector);
    }
    let mut bytes: Vec<u8> = Vec::with_capacity(8);
    bytes.push(b0);
    bytes.push(b1);
    bytes.push(b2);
    bytes.push(b3);
    bytes.push(b4);
    bytes.push(b5);
    bytes.push(b6);
    bytes.push(b7);
    assert(bytes@ =~= counter_bytes(counter));
    bytes
}

/// Calls `Hmac::<Sha1>::new_from_slice`, `update` and `finalize` of the
/// `hmac` crate. Trusted: the tag is a function of key and message alone, and
/// it has the 20 bytes of a SHA-1 output. The key setup accepts a key of any
/// length, so the call does not fail.
#[verifier::external_body]
fn hmac_sha1(key: &[u8], message: &[u8]) -> (digest: Vec<u8>)
    ensures
        digest@ == hmac_sha1_digest(key@, message@),
        digest@.len() == 20,
{
    let mut mac = <Hmac<Sha1> as Mac>::new_from_slice(key).expect("HMAC can take key of any size");
    mac.update(message);
    mac.finalize().into_bytes().to_vec()
}

/// Calls `Hmac::<Sha256>::new_from_slice`, `update` and `finalize` of the
/// `hmac` crate. Trusted: the tag is a function of key and message alone, and
/// it has the 32 bytes of a SHA-256 output. The key setup accepts a key of
/// any length, so the call does not fail.
#[verifier::external_body]
fn hmac_sha256(key: &[u8], message: &[u8]) -> (digest: Vec<u8>)
    ensures
        digest@ == hmac_sha256_digest(key@, message@),
        digest@.len() == 32,
{
    let mut mac =
        <Hmac<Sha256> as Mac>::new_from_slice(key).expect("HMAC can take key of any size");
    mac.update(message);
    mac.finalize().into_bytes().to_vec()
}

/// Calls `Hmac::<Sha512>::new_from_slice`, `update` and `finalize` of the
/// `hmac` crate. Trusted: the tag is a function of key and message alone, and
/// it has the 64 bytes of a SHA-512 output. The key setup accepts a key of
/// any length, so the call does not fail.
#[verifier::external_body]
fn hmac_sha512(key: &[u8], message: &[u8]) -> (digest: Vec<u8>)
    ensures
        digest@ == hmac_sha512_digest(key@, message@),
        digest@.len() == 64,
{
    let mut mac =
        <Hmac<Sha512> as Mac>::new_from_slice(key).expect("HMAC can take key of any size");
    mac.update(message);
    mac.finalize().into_bytes().to_vec()
}

/// Computes the keyed hash of a counter: the HMAC, with the chosen hash
/// function, of the counter's eight big-endian bytes under `key`. The key may
/// have any length. The digest has the length that belongs to the algorithm.
pub fn generate_hmac(key: &[u8], counter: u64, algorithm: HashAlgorithm) -> (digest: Vec<u8>)
    ensures
        digest@ == hmac_digest(algorithm, key@, counter_bytes(counter)),
        digest@.len() == algorithm.spec_digest_len(),
{
    let message = counter_to_bytes(counter);
    match algorithm {
        HashAlgorithm::Sha1 => hmac_sha1(key, message.as_slice()),
        HashAlgorithm::Sha256 => hmac_sha256(key, message.as_slice()),
        HashAlgorithm::Sha512 => hmac_sha512(key, message.as_slice()),
    }
}

} // verus!
