//! The hash functions that can key a code, and the tags a host names them by.

use vstd::prelude::*;
use vstd::string::StringExecFns;
use crate::error::OtpError;

verus! {

/// The hash function under the keyed hash.
#[derive(Clone, Copy, Debug, PartialEq, Eq, Structural)]
pub enum HashAlgorithm {
    Sha1,
    Sha256,
    Sha512,
}

impl HashAlgorithm {
    /// The number of bytes in a digest of this algorithm.
    pub open spec fn spec_digest_len(self) -> nat {
        match self {
            HashAlgorithm::Sha1 => 20,
            HashAlgorithm::Sha256 => 32,
            HashAlgorithm::Sha512 => 64,
        }
    }

    /// The number of bytes in a digest of this algorithm.
    pub fn digest_len(self) -> (len: usize)
        ensures
            len == self.spec_digest_len(),
    {
        match self {
            HashAlgorithm::Sha1 => 20,
            HashAlgorithm::Sha256 => 32,
            HashAlgorithm::Sha512 => 64,
        }
    }
}

/// The algorithm choice as a host hands it to the time-based generator.
#[derive(Clone, Copy, Debug, PartialEq, Eq, Structural)]
pub enum TotpHashAlgorithm {
    Sha1,
    Sha256,
    Sha512,
}

impl TotpHashAlgorithm {
    /// The hash function that this choice stands for.
    pub open spec fn spec_hash_algorithm(self) -> HashAlgorithm {
        match self {
            TotpHashAlgorithm::Sha1 => HashAlgorithm::Sha1,
            TotpHashAlgorithm::Sha256 => HashAlgorithm::Sha256,
            TotpHashAlgorithm::Sha512 => HashAlgorithm::Sha512,
        }
    }

    /// The hash function that this choice stands for.
    #[verifier::when_used_as_spec(spec_hash_algorithm)]
    pub fn hash_algorithm(self) -> (algorithm: HashAlgorithm)
        ensures
            algorithm == self.spec_hash_algorithm(),
    {
        match self {
            TotpHashAlgorithm::Sha1 => HashAlgorithm::Sha1,
            TotpHashAlgorithm::Sha256 => HashAlgorithm::Sha256,
            TotpHashAlgorithm::Sha512 => HashAlgorithm::Sha512,
        }
    }

    /// The tag that names this choice.
    pub open spec fn spec_name(self) -> Seq<char> {
        match self {
            TotpHashAlgorithm::Sha1 => "SHA1"@,
            TotpHashAlgorithm::Sha256 => "SHA256"@,
            TotpHashAlgorithm::Sha512 => "SHA512"@,
        }
    }

    /// The tag that names this choice.
    pub fn name(self) -> (tag: &'static str)
        ensures
            tag@ == self.spec_name(),
    {
        match self {
            TotpHashAlgorithm::Sha1 => "SHA1",
            TotpHashAlgorithm::Sha256 => "SHA256",
            TotpHashAlgorithm::Sha512 => "SHA512",
        }
    }

    /// The choice that a tag names, if it names one.
    pub open spec fn spec_from_name(tag: Seq<char>) -> Result<TotpHashAlgorithm, OtpError> {
        if tag == "SHA1"@ {
            Ok(TotpHashAlgorithm::Sha1)
        } else if tag == "SHA256"@ {
            Ok(TotpHashAlgorithm::Sha256)
        } else if tag == "SHA512"@ {
            Ok(TotpHashAlgorithm::Sha512)
        } else {
            Err(OtpError::UnsupportedAlgorithm)
        }
    }

    /// Reads an algorithm tag. `SHA1`, `SHA256` and `SHA512` are the tags;
    /// any other text is rejected as `UnsupportedAlgorithm`.
    pub fn from_name(tag: &str) -> (choice: Result<TotpHashAlgorithm, OtpError>)
        ensures
            choice == Self::spec_from_name(tag@),
    {
        let owned = String::from_str(tag);
        if owned == String::from_str("SHA1") {
            Ok(TotpHashAlgorithm::Sha1)
        } else if owned == String::from_str("SHA256") {
            Ok(TotpHashAlgorithm::Sha256)
        } else if owned == String::from_str("SHA512") {
            Ok(TotpHashAlgorithm::Sha512)
        } else {
            Err(OtpError::UnsupportedAlgorithm)
        }
    }
}

/// Reading the tag of a choice gives that choice back.
pub proof fn lemma_name_round_trip(choice: TotpHashAlgorithm)
    ensures
        TotpHashAlgorithm::spec_from_name(choice.spec_name()) == Ok::<TotpHashAlgorithm, OtpError>(choice),
{
    reveal_strlit("SHA1");
    reveal_strlit("SHA256");
    reveal_strlit("SHA512");
    assert("SHA1"@.len() == 4);
    assert("SHA256"@.len() == 6);
    assert("SHA512"@.len() == 6);
    assert("SHA256"@[3] == '2');
    assert("SHA512"@[3] == '5');
}

} // verus!
