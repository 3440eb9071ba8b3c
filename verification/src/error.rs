//! The ways in which generating a code can fail.

use vstd::prelude::*;

verus! {

/// Why no code was produced.
///
/// The first, fourth and fifth variants report a fault in what the caller
/// supplied; the second and third report a digest that no supported keyed
/// hash can have produced.
#[derive(Clone, Copy, Debug, PartialEq, Eq, Structural)]
pub enum OtpError {
    /// The secret is not unpadded RFC 4648 Base32.
    InvalidSecret,
    /// The digest is not 20, 32 or 64 bytes long.
    InvalidDigestLength,
    /// The four-byte window chosen by the offset does not lie inside the digest.
    TruncationOutOfRange,
    /// The time step is zero.
    InvalidStep,
    /// The algorithm tag names none of the supported hash functions.
    UnsupportedAlgorithm,
}

impl OtpError {
    /// Whether the error reports a broken invariant of the keyed hash rather
    /// than a fault in the caller's input.
    pub open spec fn spec_is_internal(self) -> bool {
        self == OtpError::InvalidDigestLength || self == OtpError::TruncationOutOfRange
    }

    /// Tells a defect to report from an input to correct: `true` for
    /// `InvalidDigestLength` and `TruncationOutOfRange`, `false` for the
    /// errors that a different input avoids.
    #[verifier::when_used_as_spec(spec_is_internal)]
    pub fn is_internal(self) -> (internal: bool)
        ensures
            internal == self.spec_is_internal(),
    {
        match self {
            OtpError::InvalidDigestLength => true,
            OtpError::TruncationOutOfRange => true,
            OtpError::InvalidSecret => false,
            OtpError::InvalidStep => false,
            OtpError::UnsupportedAlgorithm => false,
        }
    }

    /// The text that describes each error.
    pub open spec fn message_text(self) -> Seq<char> {
        match self {
            OtpError::InvalidSecret => "Invalid base32 secret"@,
            OtpError::InvalidDigestLength => "Invalid HMAC length"@,
            OtpError::TruncationOutOfRange => "Invalid offset for dynamic truncation"@,
            OtpError::InvalidStep => "Invalid time step"@,
            OtpError::UnsupportedAlgorithm => "Invalid algorithm"@,
        }
    }

    /// A short description of the error, for display by the host.
    pub fn message(&self) -> (text: &'static str)
        ensures
            text@ == self.message_text(),
    {
        match self {
            OtpError::InvalidSecret => "Invalid base32 secret",
            OtpError::InvalidDigestLength => "Invalid HMAC length",
            OtpError::TruncationOutOfRange => "Invalid offset for dynamic truncation",
            OtpError::InvalidStep => "Invalid time step",
            OtpError::UnsupportedAlgorithm => "Invalid algorithm",
        }
    }
}

} // verus!
