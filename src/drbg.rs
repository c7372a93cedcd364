use vstd::prelude::*;
use vstd::string::StringSliceAdditionalSpecFns;

use crate::error::KeygenError;
use crate::keypair::wipe;
use crate::params::HashAlg;
use cocoon_tpm_crypto::rng::{
    self, HashDrbg, RngGenerateError, RngReseedError, X86RdSeedRng, X86RdSeedRngInstantiateError,
};
use cocoon_tpm_crypto::ecc::curve::CurveOps;
use cocoon_tpm_crypto::ecc::EccKey;
use cocoon_tpm_crypto::{CryptoError, EmptyCryptoIoSlices};
use cocoon_tpm_tpm2_interface::TpmiAlgHash;
use cocoon_tpm_utils_common::alloc::{try_alloc_vec, TryNewError};
use cocoon_tpm_utils_common::io_slices::{self, IoSlicesIterCommon as _};

verus! {

#[verifier::external_type_specification]
#[verifier::external_body]
pub struct ExHashDrbg(HashDrbg);

#[verifier::external_type_specification]
#[verifier::external_body]
pub struct ExX86RdSeedRng(X86RdSeedRng);

#[verifier::external_type_specification]
pub struct ExX86RdSeedRngInstantiateError(X86RdSeedRngInstantiateError);

#[verifier::external_type_specification]
pub struct ExRngReseedError(RngReseedError);

#[verifier::external_type_specification]
pub struct ExTryNewError(TryNewError);

/// Seed length that the backend demands of a hash algorithm: the
/// algorithm's preimage security strength, in bytes.
pub open spec fn backend_min_seed_entropy_len(alg: TpmiAlgHash) -> nat {
    match alg {
        TpmiAlgHash::Sha256 => 32,
        TpmiAlgHash::Sha384 => 48,
        TpmiAlgHash::Sha512 => 64,
    }
}

/// Relies on `HashDrbg::min_seed_entropy_len`: the preimage security
/// strength of the SHA-2 algorithms (256, 384, 512 bits) rounded up to bytes.
pub assume_specification[ HashDrbg::min_seed_entropy_len ](alg: TpmiAlgHash) -> (r: usize)
    ensures
        r == backend_min_seed_entropy_len(alg),
;

/// Relies on `HashDrbg::instantiate`: it refuses entropy shorter than
/// `min_seed_entropy_len` with `InsufficientSeedLength` before doing anything
/// else, and that check is the only source of this error.
pub assume_specification[ HashDrbg::instantiate ](alg: TpmiAlgHash, entropy: &[u8], nonce: Option<&[u8]>, personalization: Option<&[u8]>) -> (drbg: Result<HashDrbg, CryptoError>)
    ensures
        (drbg is Err && drbg->Err_0 == CryptoError::InsufficientSeedLength) <==> entropy@.len() < backend_min_seed_entropy_len(alg),
;

/// Relies on `X86RdSeedRng::instantiate`: whether the CPU offers `rdseed`
/// is up to the machine, so nothing is promised.
pub assume_specification[ X86RdSeedRng::instantiate ]() -> (r: Result<
    X86RdSeedRng,
    X86RdSeedRngInstantiateError,
>);

/// Relies on `rng::rng_dyn_dispatch_generate` over a `HashDrbg`: the output
/// buffer is filled in place, its length is unchanged.
#[verifier::external_body]
fn hash_drbg_generate(drbg: &mut HashDrbg, output: &mut [u8], additional_input: Option<&[u8]>) -> (r:
    Result<(), RngGenerateError>)
    ensures
        final(output)@.len() == old(output)@.len(),
{
    let output = io_slices::SingletonIoSliceMut::new(output).map_infallible_err();
    match additional_input {
        Some(a) => rng::rng_dyn_dispatch_generate(drbg, output, Some(&[Some(a)])),
        None => rng::rng_dyn_dispatch_generate(drbg, output, None),
    }
}

/// Relies on `EccKey::generate`, drawing its randomness from a `HashDrbg`.
#[verifier::external_body]
fn ecc_key_generate(curve_ops: &CurveOps, drbg: &mut HashDrbg, additional_input: Option<&[u8]>) -> (r:
    Result<EccKey, CryptoError>)
{
    match additional_input {
        Some(a) => EccKey::generate(curve_ops, drbg, Some(&[Some(a)])),
        None => EccKey::generate(curve_ops, drbg, None),
    }
}

/// Relies on `rng::rng_dyn_dispatch_generate` over the `rdseed` instruction:
/// the output buffer is filled in place, its length is unchanged; a draw
/// that keeps failing is `RngFailure`, a fault of the buffer walk `Internal`.
#[verifier::external_body]
fn rdseed_generate(source: &mut X86RdSeedRng, output: &mut [u8]) -> (r: Result<(), RngGenerateError>)
    ensures
        final(output)@.len() == old(output)@.len(),
        r is Err ==> (r->Err_0 == RngGenerateError::CryptoError(CryptoError::RngFailure) || r->Err_0 == RngGenerateError::CryptoError(CryptoError::Internal)),
{
    let output = io_slices::SingletonIoSliceMut::new(output).map_infallible_err();
    rng::rng_dyn_dispatch_generate(source, output, None)
}

/// Relies on `ReseedableRngCore::reseed` of `HashDrbg`.
#[verifier::external_body]
fn hash_drbg_reseed(drbg: &mut HashDrbg, entropy: &[u8], additional_input: Option<&[u8]>) -> (r:
    Result<(), RngReseedError>)
{
    match additional_input {
        Some(a) => {
            let a = io_slices::SingletonIoSlice::new(a).map_infallible_err();
            rng::ReseedableRngCore::reseed(drbg, entropy, Some(a))
        },
        None => rng::ReseedableRngCore::reseed::<EmptyCryptoIoSlices>(drbg, entropy, None),
    }
}

/// Relies on `try_alloc_vec` of `cocoon-tpm-utils-common`: a zero-filled
/// vector of the asked length, or an allocation failure.
#[verifier::external_body]
fn try_alloc_bytes(len: usize) -> (r: Result<Vec<u8>, TryNewError>)
    ensures
        r matches Ok(v) ==> v@ == Seq::new(len as nat, |i: int| 0u8),
{
    try_alloc_vec::<u8>(len)
}

/// The optional byte string behind an optional slice.
pub open spec fn opt_bytes(o: Option<&[u8]>) -> Option<Seq<u8>> {
    match o {
        Some(b) => Some(b@),
        None => None,
    }
}

/// Personalization string of the process-wide generator.
pub const PRIMARY_PERSONALIZATION: &'static str = "SVSM primary rng";

/// A NIST SP800-90A Hash_DRBG, instantiated.
pub struct Drbg {
    inner: HashDrbg,
    alg: HashAlg,
    /// Length of the entropy it was instantiated from.
    seed_len: Ghost<nat>,
    /// The nonce it was instantiated with.
    nonce: Ghost<Option<Seq<u8>>>,
    /// The personalization string it was instantiated with.
    personalization: Ghost<Option<Seq<u8>>>,
}

impl Drbg {
    /// The hash algorithm the generator is built on.
    pub closed spec fn spec_hash_alg(&self) -> HashAlg {
        self.alg
    }

    /// Length of the entropy the generator was instantiated from.
    pub closed spec fn spec_seed_len(&self) -> nat {
        self.seed_len@
    }

    /// The nonce the generator was instantiated with.
    pub closed spec fn spec_nonce(&self) -> Option<Seq<u8>> {
        self.nonce@
    }

    /// The personalization string the generator was instantiated with.
    pub closed spec fn spec_personalization(&self) -> Option<Seq<u8>> {
        self.personalization@
    }

    /// The hash algorithm the generator is built on.
    pub fn hash_alg(&self) -> (r: HashAlg)
        ensures
            r == self.spec_hash_alg(),
    {
        self.alg
    }

    /// Least entropy length, in bytes, for instantiating or reseeding on `alg`.
    pub fn min_seed_entropy_len(alg: HashAlg) -> (r: usize)
        ensures
            r == alg.spec_min_seed_entropy_len(),
    {
        HashDrbg::min_seed_entropy_len(alg.backend_alg())
    }

    /// Instantiates a generator from `entropy || nonce || personalization`.
    pub fn instantiate(
        alg: HashAlg,
        entropy: &[u8],
        nonce: Option<&[u8]>,
        personalization: Option<&[u8]>,
    ) -> (r: Result<Drbg, KeygenError>)
        ensures
            (r matches Err(e) && e == KeygenError::InsufficientEntropy) <==> entropy@.len()
                < alg.spec_min_seed_entropy_len(),
            r matches Ok(d) ==> d.spec_hash_alg() == alg && d.spec_seed_len() == entropy@.len()
                && d.spec_nonce() == opt_bytes(nonce) && d.spec_personalization() == opt_bytes(
                personalization,
            ),
    {
        match HashDrbg::instantiate(alg.backend_alg(), entropy, nonce, personalization) {
            Ok(inner) => Ok(
                Drbg {
                    inner,
                    alg,
                    seed_len: Ghost(entropy@.len()),
                    nonce: Ghost(opt_bytes(nonce)),
                    personalization: Ghost(opt_bytes(personalization)),
                },
            ),
            Err(e) => Err(KeygenError::from_crypto(e)),
        }
    }

    /// Fills `output` with pseudorandom bytes and advances the state.
    pub fn generate(&mut self, output: &mut [u8], additional_input: Option<&[u8]>) -> (r: Result<
        (),
        KeygenError,
    >)
        ensures
            final(output)@.len() == old(output)@.len(),
            final(self).spec_hash_alg() == old(self).spec_hash_alg(),
    {
        match hash_drbg_generate(&mut self.inner, output, additional_input) {
            Ok(()) => Ok(()),
            Err(e) => Err(KeygenError::from_rng(e)),
        }
    }

    /// Draws an ECC key on `curve_ops` from this generator.
    pub(crate) fn generate_ecc_key(&mut self, curve_ops: &CurveOps, additional_input: Option<&[u8]>) -> (r:
        Result<EccKey, CryptoError>)
        ensures
            final(self).spec_hash_alg() == old(self).spec_hash_alg(),
    {
        ecc_key_generate(curve_ops, &mut self.inner, additional_input)
    }

    /// Mixes fresh entropy into the state and resets the backend's request counter.
    /// Entropy shorter than the algorithm's minimum is refused and the
    /// state is left as it was.
    pub fn reseed(&mut self, entropy: &[u8], additional_input: Option<&[u8]>) -> (r: Result<
        (),
        KeygenError,
    >)
        ensures
            final(self).spec_hash_alg() == old(self).spec_hash_alg(),
            (r matches Err(e) && e == KeygenError::InsufficientEntropy) <==> entropy@.len()
                < old(self).spec_hash_alg().spec_min_seed_entropy_len(),
            entropy@.len() < old(self).spec_hash_alg().spec_min_seed_entropy_len() ==> *final(self)
                == *old(self),
    {
        if entropy.len() < Drbg::min_seed_entropy_len(self.alg) {
            return Err(KeygenError::InsufficientEntropy);
        }
        match hash_drbg_reseed(&mut self.inner, entropy, additional_input) {
            Ok(()) => Ok(()),
            Err(RngReseedError::CryptoError(e)) => Err(KeygenError::from_backend_reseed(e)),
        }
    }
}

/// Instantiates the primary generator from `entropy`: SHA-256, no nonce and
/// the fixed personalization string.
pub fn instantiate_primary(entropy: &[u8]) -> (r: Result<Drbg, KeygenError>)
    ensures
        (r matches Err(e) && e == KeygenError::InsufficientEntropy) <==> entropy@.len()
            < HashAlg::Sha256.spec_min_seed_entropy_len(),
        r matches Ok(d) ==> d.spec_hash_alg() == HashAlg::Sha256 && d.spec_seed_len() == entropy@.len()
            && d.spec_nonce() is None && d.spec_personalization() == Some(
            PRIMARY_PERSONALIZATION.spec_bytes(),
        ),
{
    Drbg::instantiate(HashAlg::Sha256, entropy, None, Some(PRIMARY_PERSONALIZATION.as_bytes()))
}

/// How a failure to set up the entropy source is reported: the source is
/// not there.
pub fn entropy_source_error() -> (r: KeygenError)
    ensures
        r == KeygenError::EntropyUnavailable,
{
    KeygenError::EntropyUnavailable
}

/// Instantiates the primary generator, seeded with `min_seed_entropy_len`
/// bytes drawn from the CPU's `rdseed` instruction (see `instantiate_primary`).
/// A missing `rdseed` is `EntropyUnavailable`; the entropy is always long
/// enough, so `InsufficientEntropy` never comes back.
pub fn instantiate_rng() -> (r: Result<Drbg, KeygenError>)
    ensures
        r matches Ok(d) ==> d.spec_hash_alg() == HashAlg::Sha256 && d.spec_seed_len()
            == HashAlg::Sha256.spec_min_seed_entropy_len() && d.spec_nonce() is None
            && d.spec_personalization() == Some(PRIMARY_PERSONALIZATION.spec_bytes()),
        r matches Err(e) ==> e != KeygenError::InsufficientEntropy,
{
    let mut source = match X86RdSeedRng::instantiate() {
        Ok(s) => s,
        Err(_) => return Err(entropy_source_error()),
    };
    let entropy_len = Drbg::min_seed_entropy_len(HashAlg::Sha256);
    let mut entropy = match try_alloc_bytes(entropy_len) {
        Ok(v) => v,
        Err(_) => return Err(KeygenError::AllocationFailure),
    };
    if let Err(e) = rdseed_generate(&mut source, entropy.as_mut_slice()) {
        wipe(&mut entropy);
        return Err(KeygenError::from_rng(e));
    }
    let r = instantiate_primary(entropy.as_slice());
    wipe(&mut entropy);
    r
}

} // verus!
