use vstd::prelude::*;

use crate::drbg::Drbg;
use crate::error::KeygenError;
use crate::keypair::{parts_fit, spec_left_pad, wipe, KeyPair};
use crate::order::{be_less, be_to_nat, lemma_be_zero};
use crate::params::CurveId;
use cocoon_tpm_crypto::ecc::curve::{Curve, CurveOps};
use cocoon_tpm_crypto::ecc::EccKey;
use cocoon_tpm_crypto::CryptoError;
use cocoon_tpm_tpm2_interface::TpmEccCurve;

verus! {

#[verifier::external_type_specification]
#[verifier::external_body]
pub struct ExCurve(Curve);

#[verifier::external_type_specification]
#[verifier::external_body]
pub struct ExCurveOps<'a>(CurveOps<'a>);

#[verifier::external_type_specification]
#[verifier::external_body]
pub struct ExEccKey(EccKey);

/// Relies on `Curve::new`: every compiled-in curve is found, only the
/// placeholder `None` is refused.
pub assume_specification[ Curve::new ](curve_id: TpmEccCurve) -> (r: Result<Curve, CryptoError>)
    ensures
        r is Ok <==> curve_id != TpmEccCurve::None,
;

/// Relies on `Curve::curve_ops`: it allocates scratch space, so it may fail.
pub assume_specification<'a>[ Curve::curve_ops ](curve: &'a Curve) -> (r: Result<CurveOps<'a>, CryptoError>);

/// Relies on `EccKey::into_tpms`: the public point's plain coordinates and,
/// when present, the private scalar, as big-endian byte strings.
#[verifier::external_body]
fn ecc_key_into_parts(key: EccKey, curve_ops: &CurveOps) -> (r: Result<
    (Vec<u8>, Vec<u8>, Option<Vec<u8>>),
    CryptoError,
>)
{
    let (point, d) = key.into_tpms(curve_ops)?;
    let d = match d {
        Some(d) => Some(d.buffer.to_vec()),
        None => None,
    };
    Ok((point.x.buffer.to_vec(), point.y.buffer.to_vec(), d))
}

/// Whether `d`, left-padded to the field width, is a valid private scalar
/// for `curve_id`: non-zero and below the group order.
pub open spec fn scalar_in_range(curve_id: CurveId, d: Seq<u8>) -> bool {
    let v = be_to_nat(spec_left_pad(d, curve_id.spec_field_len()));
    1 <= v < curve_id.spec_order()
}

/// Turns the parts that the backend handed out into a key pair. A missing
/// scalar, parts that do not fit the field, or a scalar not below the group
/// order are a defect: `Internal`.
pub fn assemble_key_pair(curve_id: CurveId, x: &[u8], y: &[u8], d: Option<&[u8]>) -> (r: Result<
    KeyPair,
    KeygenError,
>)
    ensures
        r is Err <==> (d is None || !parts_fit(curve_id, x@, y@, d->Some_0@) || !scalar_in_range(
            curve_id,
            d->Some_0@,
        )),
        r matches Err(e) ==> e == KeygenError::Internal,
        r matches Ok(kp) ==> kp.wf() && kp.spec_curve() == curve_id && kp.spec_x() == spec_left_pad(
            x@,
            curve_id.spec_field_len(),
        ) && kp.spec_y() == spec_left_pad(y@, curve_id.spec_field_len()) && kp.spec_d()
            == spec_left_pad(d->Some_0@, curve_id.spec_field_len()),
{
    match d {
        None => Err(KeygenError::Internal),
        Some(d) => match KeyPair::from_parts(curve_id, x, y, d) {
            Some(kp) => {
                let order = curve_id.order_bytes();
                proof {
                    lemma_be_zero(kp.spec_d());
                    assert(order@.len() == curve_id.spec_field_len());
                }
                if be_less(kp.private_d(), order.as_slice()) {
                    Ok(kp)
                } else {
                    Err(KeygenError::Internal)
                }
            },
            None => Err(KeygenError::Internal),
        },
    }
}

/// Generates a key pair on `curve_id`, drawing randomness from `rng`.
///
/// The backend samples the private scalar by oversampling 64 extra bits and
/// reducing modulo the group order, so the time taken does not depend on the
/// draw. A missing, zero or over-wide private scalar, or an over-wide
/// coordinate, is reported as `Internal`.
pub fn gen_ecc_key(curve_id: CurveId, rng: &mut Drbg, additional_rng_generate_input: Option<&[u8]>) -> (r:
    Result<KeyPair, KeygenError>)
    ensures
        final(rng).spec_hash_alg() == old(rng).spec_hash_alg(),
        r matches Ok(kp) ==> kp.wf() && kp.spec_curve() == curve_id && 1 <= be_to_nat(kp.spec_d())
            < curve_id.spec_order(),
{
    let curve = match Curve::new(curve_id.backend_id()) {
        Ok(c) => c,
        Err(e) => return Err(KeygenError::from_crypto(e)),
    };
    let curve_ops = match curve.curve_ops() {
        Ok(ops) => ops,
        Err(e) => return Err(KeygenError::from_crypto(e)),
    };
    let key = match rng.generate_ecc_key(&curve_ops, additional_rng_generate_input) {
        Ok(k) => k,
        Err(e) => return Err(KeygenError::from_crypto(e)),
    };
    let (x, y, d) = match ecc_key_into_parts(key, &curve_ops) {
        Ok(parts) => parts,
        Err(e) => return Err(KeygenError::from_crypto(e)),
    };
    match d {
        None => assemble_key_pair(curve_id, x.as_slice(), y.as_slice(), None),
        Some(mut d) => {
            let r = assemble_key_pair(curve_id, x.as_slice(), y.as_slice(), Some(d.as_slice()));
            wipe(&mut d);
            r
        },
    }
}

} // verus!
