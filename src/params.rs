use vstd::prelude::*;

use crate::error::KeygenError;
use cocoon_tpm_tpm2_interface::{TpmEccCurve, TpmiAlgHash};

verus! {

#[verifier::external_type_specification]
pub struct ExTpmEccCurve(TpmEccCurve);

#[verifier::external_type_specification]
pub struct ExTpmiAlgHash(TpmiAlgHash);

/// TCG identifier of NIST P-224.
pub const TCG_NIST_P224: u16 = 0x0002;

/// TCG identifier of NIST P-256.
pub const TCG_NIST_P256: u16 = 0x0003;

/// TCG identifier of NIST P-384.
pub const TCG_NIST_P384: u16 = 0x0004;

/// TCG identifier of NIST P-521.
pub const TCG_NIST_P521: u16 = 0x0005;

/// The named curves that keys can be generated on.
#[derive(Clone, Copy, Debug, PartialEq, Eq, Structural)]
pub enum CurveId {
    NistP224,
    NistP256,
    NistP384,
    NistP521,
}

impl CurveId {
    /// The curve's identifier in the TCG registry.
    pub open spec fn spec_tcg_id(self) -> u16 {
        match self {
            CurveId::NistP224 => TCG_NIST_P224,
            CurveId::NistP256 => TCG_NIST_P256,
            CurveId::NistP384 => TCG_NIST_P384,
            CurveId::NistP521 => TCG_NIST_P521,
        }
    }

    /// Bit length of the curve's prime field.
    pub open spec fn spec_field_bits(self) -> nat {
        match self {
            CurveId::NistP224 => 224,
            CurveId::NistP256 => 256,
            CurveId::NistP384 => 384,
            CurveId::NistP521 => 521,
        }
    }

    /// Byte length of a field element or scalar: the bit length rounded up.
    pub open spec fn spec_field_len(self) -> nat {
        (self.spec_field_bits() + 7) / 8
    }

    /// Looks a curve up by its TCG identifier.
    pub fn from_tcg_id(id: u16) -> (r: Result<CurveId, KeygenError>)
        ensures
            r is Ok <==> (id == TCG_NIST_P224 || id == TCG_NIST_P256 || id == TCG_NIST_P384
                || id == TCG_NIST_P521),
            r matches Ok(c) ==> c.spec_tcg_id() == id,
            r matches Err(e) ==> e == KeygenError::UnsupportedCurve,
    {
        if id == TCG_NIST_P224 {
            Ok(CurveId::NistP224)
        } else if id == TCG_NIST_P256 {
            Ok(CurveId::NistP256)
        } else if id == TCG_NIST_P384 {
            Ok(CurveId::NistP384)
        } else if id == TCG_NIST_P521 {
            Ok(CurveId::NistP521)
        } else {
            Err(KeygenError::UnsupportedCurve)
        }
    }

    /// The curve's identifier in the TCG registry.
    pub fn tcg_id(&self) -> (r: u16)
        ensures
            r == self.spec_tcg_id(),
    {
        match self {
            CurveId::NistP224 => TCG_NIST_P224,
            CurveId::NistP256 => TCG_NIST_P256,
            CurveId::NistP384 => TCG_NIST_P384,
            CurveId::NistP521 => TCG_NIST_P521,
        }
    }

    /// Byte length of the curve's field elements and scalars.
    pub fn field_len(&self) -> (r: usize)
        ensures
            r == self.spec_field_len(),
    {
        match self {
            CurveId::NistP224 => 28,
            CurveId::NistP256 => 32,
            CurveId::NistP384 => 48,
            CurveId::NistP521 => 66,
        }
    }

    /// The backend's name for this curve.
    pub open spec fn spec_backend_id(self) -> TpmEccCurve {
        match self {
            CurveId::NistP224 => TpmEccCurve::NistP224,
            CurveId::NistP256 => TpmEccCurve::NistP256,
            CurveId::NistP384 => TpmEccCurve::NistP384,
            CurveId::NistP521 => TpmEccCurve::NistP521,
        }
    }

    pub fn backend_id(&self) -> (r: TpmEccCurve)
        ensures
            r == self.spec_backend_id(),
    {
        match self {
            CurveId::NistP224 => TpmEccCurve::NistP224,
            CurveId::NistP256 => TpmEccCurve::NistP256,
            CurveId::NistP384 => TpmEccCurve::NistP384,
            CurveId::NistP521 => TpmEccCurve::NistP521,
        }
    }
}

/// The hash algorithms that the DRBG can be built on.
#[derive(Clone, Copy, Debug, PartialEq, Eq, Structural)]
pub enum HashAlg {
    Sha256,
    Sha384,
    Sha512,
}

impl HashAlg {
    /// Least number of entropy bytes for instantiating or reseeding: the
    /// algorithm's preimage security strength in bytes.
    pub open spec fn spec_min_seed_entropy_len(self) -> nat {
        match self {
            HashAlg::Sha256 => 32,
            HashAlg::Sha384 => 48,
            HashAlg::Sha512 => 64,
        }
    }

    /// The backend's name for this algorithm.
    pub open spec fn spec_backend_alg(self) -> TpmiAlgHash {
        match self {
            HashAlg::Sha256 => TpmiAlgHash::Sha256,
            HashAlg::Sha384 => TpmiAlgHash::Sha384,
            HashAlg::Sha512 => TpmiAlgHash::Sha512,
        }
    }

    pub fn backend_alg(&self) -> (r: TpmiAlgHash)
        ensures
            r == self.spec_backend_alg(),
    {
        match self {
            HashAlg::Sha256 => TpmiAlgHash::Sha256,
            HashAlg::Sha384 => TpmiAlgHash::Sha384,
            HashAlg::Sha512 => TpmiAlgHash::Sha512,
        }
    }
}

} // verus!
