use vstd::prelude::*;

use cocoon_tpm_crypto::rng::RngGenerateError;
use cocoon_tpm_crypto::CryptoError;

verus! {

#[verifier::external_type_specification]
pub struct ExCryptoError(CryptoError);

#[verifier::external_type_specification]
pub struct ExRngGenerateError(RngGenerateError);

/// The failures that key generation and the DRBG report to their callers.
#[derive(Clone, Copy, Debug, PartialEq, Eq, Structural)]
pub enum KeygenError {
    /// The entropy handed to the DRBG is shorter than its hash algorithm asks for.
    InsufficientEntropy,
    /// The curve identifier names no supported curve.
    UnsupportedCurve,
    /// Memory for a buffer could not be had.
    AllocationFailure,
    /// The random source reported an error.
    RngFailure,
    /// The DRBG served its maximum number of requests and must be reseeded.
    ReseedRequired,
    /// The entropy source is not available on this platform.
    EntropyUnavailable,
    /// A post-condition of key generation does not hold: a defect, not bad input.
    Internal,
    /// Any other failure of the cryptographic backend.
    Failed,
}

/// How a backend error is reported.
pub open spec fn crypto_error_meaning(e: CryptoError) -> KeygenError {
    match e {
        CryptoError::InsufficientSeedLength => KeygenError::InsufficientEntropy,
        CryptoError::MemoryAllocationFailure => KeygenError::AllocationFailure,
        CryptoError::RngFailure => KeygenError::RngFailure,
        CryptoError::RandomSamplingRetriesExceeded => KeygenError::RngFailure,
        CryptoError::Internal => KeygenError::Internal,
        CryptoError::InvalidParams => KeygenError::UnsupportedCurve,
        _ => KeygenError::Failed,
    }
}

/// How a failed DRBG request is reported.
pub open spec fn rng_error_meaning(e: RngGenerateError) -> KeygenError {
    match e {
        RngGenerateError::ReseedRequired => KeygenError::ReseedRequired,
        RngGenerateError::CryptoError(c) => crypto_error_meaning(c),
    }
}

impl KeygenError {
    /// Classifies an error of the cryptographic backend.
    pub fn from_crypto(e: CryptoError) -> (r: KeygenError)
        ensures
            r == crypto_error_meaning(e),
    {
        match e {
            CryptoError::InsufficientSeedLength => KeygenError::InsufficientEntropy,
            CryptoError::MemoryAllocationFailure => KeygenError::AllocationFailure,
            CryptoError::RngFailure => KeygenError::RngFailure,
            CryptoError::RandomSamplingRetriesExceeded => KeygenError::RngFailure,
            CryptoError::Internal => KeygenError::Internal,
            CryptoError::InvalidParams => KeygenError::UnsupportedCurve,
            _ => KeygenError::Failed,
        }
    }

    /// Classifies an error of a reseed that the library's own length check
    /// let through: a backend refusal of the length there is a defect.
    pub fn from_backend_reseed(e: CryptoError) -> (r: KeygenError)
        ensures
            e == CryptoError::InsufficientSeedLength ==> r == KeygenError::Internal,
            e != CryptoError::InsufficientSeedLength ==> r == crypto_error_meaning(e),
    {
        match e {
            CryptoError::InsufficientSeedLength => KeygenError::Internal,
            _ => KeygenError::from_crypto(e),
        }
    }

    /// Classifies an error of a DRBG request.
    pub fn from_rng(e: RngGenerateError) -> (r: KeygenError)
        ensures
            r == rng_error_meaning(e),
    {
        match e {
            RngGenerateError::ReseedRequired => KeygenError::ReseedRequired,
            RngGenerateError::CryptoError(c) => KeygenError::from_crypto(c),
        }
    }
}

} // verus!
