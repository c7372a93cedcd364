use vstd::prelude::*;

use crate::keypair::is_zero_scalar;
use crate::params::CurveId;

verus! {

/// The unsigned integer that `s` spells in big-endian byte order.
pub open spec fn be_to_nat(s: Seq<u8>) -> nat
    decreases s.len(),
{
    if s.len() == 0 {
        0
    } else {
        be_to_nat(s.drop_last()) * 256 + s.last() as nat
    }
}

impl CurveId {
    /// The order of the curve's base point, big-endian and as wide as the field.
    pub open spec fn spec_order_bytes(self) -> Seq<u8> {
        match self {
            CurveId::NistP224 => seq![
                0xffu8, 0xffu8, 0xffu8, 0xffu8, 0xffu8, 0xffu8, 0xffu8, 0xffu8,
                0xffu8, 0xffu8, 0xffu8, 0xffu8, 0xffu8, 0xffu8, 0x16u8, 0xa2u8,
                0xe0u8, 0xb8u8, 0xf0u8, 0x3eu8, 0x13u8, 0xddu8, 0x29u8, 0x45u8,
                0x5cu8, 0x5cu8, 0x2au8, 0x3du8,
            ],
            CurveId::NistP256 => seq![
                0xffu8, 0xffu8, 0xffu8, 0xffu8, 0x00u8, 0x00u8, 0x00u8, 0x00u8,
                0xffu8, 0xffu8, 0xffu8, 0xffu8, 0xffu8, 0xffu8, 0xffu8, 0xffu8,
                0xbcu8, 0xe6u8, 0xfau8, 0xadu8, 0xa7u8, 0x17u8, 0x9eu8, 0x84u8,
                0xf3u8, 0xb9u8, 0xcau8, 0xc2u8, 0xfcu8, 0x63u8, 0x25u8, 0x51u8,
            ],
            CurveId::NistP384 => seq![
                0xffu8, 0xffu8, 0xffu8, 0xffu8, 0xffu8, 0xffu8, 0xffu8, 0xffu8,
                0xffu8, 0xffu8, 0xffu8, 0xffu8, 0xffu8, 0xffu8, 0xffu8, 0xffu8,
                0xffu8, 0xffu8, 0xffu8, 0xffu8, 0xffu8, 0xffu8, 0xffu8, 0xffu8,
                0xc7u8, 0x63u8, 0x4du8, 0x81u8, 0xf4u8, 0x37u8, 0x2du8, 0xdfu8,
                0x58u8, 0x1au8, 0x0du8, 0xb2u8, 0x48u8, 0xb0u8, 0xa7u8, 0x7au8,
                0xecu8, 0xecu8, 0x19u8, 0x6au8, 0xccu8, 0xc5u8, 0x29u8, 0x73u8,
            ],
            CurveId::NistP521 => seq![
                0x01u8, 0xffu8, 0xffu8, 0xffu8, 0xffu8, 0xffu8, 0xffu8, 0xffu8,
                0xffu8, 0xffu8, 0xffu8, 0xffu8, 0xffu8, 0xffu8, 0xffu8, 0xffu8,
                0xffu8, 0xffu8, 0xffu8, 0xffu8, 0xffu8, 0xffu8, 0xffu8, 0xffu8,
                0xffu8, 0xffu8, 0xffu8, 0xffu8, 0xffu8, 0xffu8, 0xffu8, 0xffu8,
                0xffu8, 0xfau8, 0x51u8, 0x86u8, 0x87u8, 0x83u8, 0xbfu8, 0x2fu8,
                0x96u8, 0x6bu8, 0x7fu8, 0xccu8, 0x01u8, 0x48u8, 0xf7u8, 0x09u8,
                0xa5u8, 0xd0u8, 0x3bu8, 0xb5u8, 0xc9u8, 0xb8u8, 0x89u8, 0x9cu8,
                0x47u8, 0xaeu8, 0xbbu8, 0x6fu8, 0xb7u8, 0x1eu8, 0x91u8, 0x38u8,
                0x64u8, 0x09u8,
            ],
        }
    }

    /// The order of the curve's base point.
    pub open spec fn spec_order(self) -> nat {
        be_to_nat(self.spec_order_bytes())
    }

    /// The order of the curve's base point, big-endian and as wide as the field.
    pub fn order_bytes(&self) -> (r: Vec<u8>)
        ensures
            r@ == self.spec_order_bytes(),
    {
        let r = match self {
            CurveId::NistP224 => vec![
                0xffu8, 0xffu8, 0xffu8, 0xffu8, 0xffu8, 0xffu8, 0xffu8, 0xffu8,
                0xffu8, 0xffu8, 0xffu8, 0xffu8, 0xffu8, 0xffu8, 0x16u8, 0xa2u8,
                0xe0u8, 0xb8u8, 0xf0u8, 0x3eu8, 0x13u8, 0xddu8, 0x29u8, 0x45u8,
                0x5cu8, 0x5cu8, 0x2au8, 0x3du8,
            ],
            CurveId::NistP256 => vec![
                0xffu8, 0xffu8, 0xffu8, 0xffu8, 0x00u8, 0x00u8, 0x00u8, 0x00u8,
                0xffu8, 0xffu8, 0xffu8, 0xffu8, 0xffu8, 0xffu8, 0xffu8, 0xffu8,
                0xbcu8, 0xe6u8, 0xfau8, 0xadu8, 0xa7u8, 0x17u8, 0x9eu8, 0x84u8,
                0xf3u8, 0xb9u8, 0xcau8, 0xc2u8, 0xfcu8, 0x63u8, 0x25u8, 0x51u8,
            ],
            CurveId::NistP384 => vec![
                0xffu8, 0xffu8, 0xffu8, 0xffu8, 0xffu8, 0xffu8, 0xffu8, 0xffu8,
                0xffu8, 0xffu8, 0xffu8, 0xffu8, 0xffu8, 0xffu8, 0xffu8, 0xffu8,
                0xffu8, 0xffu8, 0xffu8, 0xffu8, 0xffu8, 0xffu8, 0xffu8, 0xffu8,
                0xc7u8, 0x63u8, 0x4du8, 0x81u8, 0xf4u8, 0x37u8, 0x2du8, 0xdfu8,
                0x58u8, 0x1au8, 0x0du8, 0xb2u8, 0x48u8, 0xb0u8, 0xa7u8, 0x7au8,
                0xecu8, 0xecu8, 0x19u8, 0x6au8, 0xccu8, 0xc5u8, 0x29u8, 0x73u8,
            ],
            CurveId::NistP521 => vec![
                0x01u8, 0xffu8, 0xffu8, 0xffu8, 0xffu8, 0xffu8, 0xffu8, 0xffu8,
                0xffu8, 0xffu8, 0xffu8, 0xffu8, 0xffu8, 0xffu8, 0xffu8, 0xffu8,
                0xffu8, 0xffu8, 0xffu8, 0xffu8, 0xffu8, 0xffu8, 0xffu8, 0xffu8,
                0xffu8, 0xffu8, 0xffu8, 0xffu8, 0xffu8, 0xffu8, 0xffu8, 0xffu8,
                0xffu8, 0xfau8, 0x51u8, 0x86u8, 0x87u8, 0x83u8, 0xbfu8, 0x2fu8,
                0x96u8, 0x6bu8, 0x7fu8, 0xccu8, 0x01u8, 0x48u8, 0xf7u8, 0x09u8,
                0xa5u8, 0xd0u8, 0x3bu8, 0xb5u8, 0xc9u8, 0xb8u8, 0x89u8, 0x9cu8,
                0x47u8, 0xaeu8, 0xbbu8, 0x6fu8, 0xb7u8, 0x1eu8, 0x91u8, 0x38u8,
                0x64u8, 0x09u8,
            ],
        };
        assert(r@ =~= self.spec_order_bytes());
        r
    }
}

/// A byte string is all zeros exactly when its big-endian value is zero.
pub proof fn lemma_be_zero(s: Seq<u8>)
    ensures
        is_zero_scalar(s) <==> be_to_nat(s) == 0,
    decreases s.len(),
{
    if s.len() > 0 {
        lemma_be_zero(s.drop_last());
        if is_zero_scalar(s) {
            assert(is_zero_scalar(s.drop_last()));
        } else if is_zero_scalar(s.drop_last()) {
            assert(s.last() != 0) by {
                let i = choose|i: int| 0 <= i < s.len() && s[i] != 0;
                if i < s.len() - 1 {
                    assert(s.drop_last()[i] == s[i]);
                }
            }
        }
    }
}

/// Whether the big-endian value of `a` is below that of `b`, for strings of
/// one width.
pub fn be_less(a: &[u8], b: &[u8]) -> (r: bool)
    requires
        a@.len() == b@.len(),
    ensures
        r == (be_to_nat(a@) < be_to_nat(b@)),
{
    let mut less = false;
    let mut equal = true;
    let mut i: usize = 0;
    while i < a.len()
        invariant
            a@.len() == b@.len(),
            i <= a@.len(),
            less == (be_to_nat(a@.subrange(0, i as int)) < be_to_nat(b@.subrange(0, i as int))),
            equal == (be_to_nat(a@.subrange(0, i as int)) == be_to_nat(b@.subrange(0, i as int))),
        decreases a@.len() - i,
    {
        let ghost pa = be_to_nat(a@.subrange(0, i as int));
        let ghost pb = be_to_nat(b@.subrange(0, i as int));
        assert(a@.subrange(0, i + 1).drop_last() =~= a@.subrange(0, i as int));
        assert(b@.subrange(0, i + 1).drop_last() =~= b@.subrange(0, i as int));
        let x = a[i];
        let y = b[i];
        proof {
            let na = be_to_nat(a@.subrange(0, i + 1));
            let nb = be_to_nat(b@.subrange(0, i + 1));
            assert(na == pa * 256 + x as nat);
            assert(nb == pb * 256 + y as nat);
            if pa < pb {
                assert(pa * 256 + 256 <= pb * 256) by (nonlinear_arith)
                    requires pa < pb;
            } else if pb < pa {
                assert(pb * 256 + 256 <= pa * 256) by (nonlinear_arith)
                    requires pb < pa;
            }
        }
        if equal {
            less = x < y;
            equal = x == y;
        }
        i = i + 1;
    }
    assert(a@.subrange(0, a@.len() as int) =~= a@);
    assert(b@.subrange(0, b@.len() as int) =~= b@);
    less
}

} // verus!
