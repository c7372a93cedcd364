use vstd::prelude::*;

use crate::params::CurveId;
use cocoon_tpm_utils_common::zeroize::Zeroize;

verus! {

/// Every byte of the big-endian scalar is zero.
pub open spec fn is_zero_scalar(s: Seq<u8>) -> bool {
    forall|i: int| 0 <= i < s.len() ==> s[i] == 0
}

/// `bytes` left-padded with zero bytes to `width`.
pub open spec fn spec_left_pad(bytes: Seq<u8>, width: nat) -> Seq<u8> {
    Seq::new((width - bytes.len()) as nat, |i: int| 0u8) + bytes
}

/// Coordinates and scalar that `KeyPair::from_parts` accepts for `curve`: none
/// wider than the field, and a scalar that is not zero.
pub open spec fn parts_fit(curve: CurveId, x: Seq<u8>, y: Seq<u8>, d: Seq<u8>) -> bool {
    &&& x.len() <= curve.spec_field_len()
    &&& y.len() <= curve.spec_field_len()
    &&& d.len() <= curve.spec_field_len()
    &&& !is_zero_scalar(d)
}

/// The fixed-width encoding of a key pair: `x || y || d`.
pub open spec fn spec_encode(x: Seq<u8>, y: Seq<u8>, d: Seq<u8>) -> Seq<u8> {
    x + y + d
}

/// Splits an encoding for `curve` into `(x, y, d)`, when its length is three
/// field widths.
pub open spec fn spec_decode(curve: CurveId, s: Seq<u8>) -> Option<(Seq<u8>, Seq<u8>, Seq<u8>)> {
    let n = curve.spec_field_len() as int;
    if s.len() == 3 * n {
        Some((s.subrange(0, n), s.subrange(n, 2 * n), s.subrange(2 * n, 3 * n)))
    } else {
        None
    }
}

/// An elliptic-curve key pair: public point `(x, y)` and private scalar `d`,
/// each a big-endian integer as wide as the curve's field.
pub struct KeyPair {
    curve: CurveId,
    x: Vec<u8>,
    y: Vec<u8>,
    d: Vec<u8>,
}

impl KeyPair {
    pub closed spec fn spec_curve(&self) -> CurveId {
        self.curve
    }

    pub closed spec fn spec_x(&self) -> Seq<u8> {
        self.x@
    }

    pub closed spec fn spec_y(&self) -> Seq<u8> {
        self.y@
    }

    pub closed spec fn spec_d(&self) -> Seq<u8> {
        self.d@
    }

    /// All three values are exactly as wide as the field, and the private
    /// scalar is not zero.
    pub open spec fn wf(&self) -> bool {
        &&& self.spec_x().len() == self.spec_curve().spec_field_len()
        &&& self.spec_y().len() == self.spec_curve().spec_field_len()
        &&& self.spec_d().len() == self.spec_curve().spec_field_len()
        &&& !is_zero_scalar(self.spec_d())
    }

    pub open spec fn spec_encoding(&self) -> Seq<u8> {
        spec_encode(self.spec_x(), self.spec_y(), self.spec_d())
    }

    /// Builds a key pair from coordinates and scalar of any width up to the
    /// field's, left-padding each with zeros. Refuses wider values and a zero
    /// scalar.
    pub fn from_parts(curve: CurveId, x: &[u8], y: &[u8], d: &[u8]) -> (r: Option<KeyPair>)
        ensures
            r is Some <==> parts_fit(curve, x@, y@, d@),
            r matches Some(kp) ==> kp.wf() && kp.spec_curve() == curve && kp.spec_x() == spec_left_pad(
                x@,
                curve.spec_field_len(),
            ) && kp.spec_y() == spec_left_pad(y@, curve.spec_field_len()) && kp.spec_d()
                == spec_left_pad(d@, curve.spec_field_len()),
    {
        let width = curve.field_len();
        if is_zero(d) {
            return None;
        }
        let x = match left_pad(x, width) {
            Some(v) => v,
            None => return None,
        };
        let y = match left_pad(y, width) {
            Some(v) => v,
            None => return None,
        };
        let dp = match left_pad(d, width) {
            Some(v) => v,
            None => return None,
        };
        proof {
            assert forall|i: int| 0 <= i < d@.len() implies dp@[(width - d@.len()) + i] == d@[i] by {}
        }
        Some(KeyPair { curve, x, y, d: dp })
    }

    pub fn curve(&self) -> (r: CurveId)
        ensures
            r == self.spec_curve(),
    {
        self.curve
    }

    /// The public point's x coordinate.
    pub fn public_x(&self) -> (r: &[u8])
        ensures
            r@ == self.spec_x(),
    {
        self.x.as_slice()
    }

    /// The public point's y coordinate.
    pub fn public_y(&self) -> (r: &[u8])
        ensures
            r@ == self.spec_y(),
    {
        self.y.as_slice()
    }

    /// The private scalar.
    pub fn private_d(&self) -> (r: &[u8])
        ensures
            r@ == self.spec_d(),
    {
        self.d.as_slice()
    }

    /// Serializes as `x || y || d`.
    pub fn to_bytes(&self) -> (r: Vec<u8>)
        ensures
            r@ == self.spec_encoding(),
    {
        let total = 3 * self.curve.field_len();
        let mut out: Vec<u8> = Vec::with_capacity(total);
        append_bytes(&mut out, self.x.as_slice());
        append_bytes(&mut out, self.y.as_slice());
        append_bytes(&mut out, self.d.as_slice());
        out
    }

    /// Parses `x || y || d` for `curve`. Fails when the length is not three
    /// field widths or the scalar is zero.
    pub fn from_bytes(curve: CurveId, bytes: &[u8]) -> (r: Option<KeyPair>)
        ensures
            r is Some <==> (spec_decode(curve, bytes@) is Some && !is_zero_scalar(
                spec_decode(curve, bytes@)->Some_0.2,
            )),
            r matches Some(kp) ==> kp.wf() && kp.spec_curve() == curve && spec_decode(curve, bytes@)
                == Some((kp.spec_x(), kp.spec_y(), kp.spec_d())),
    {
        let n = curve.field_len();
        if bytes.len() != 3 * n {
            return None;
        }
        let x = copy_range(bytes, 0, n);
        let y = copy_range(bytes, n, 2 * n);
        let d = copy_range(bytes, 2 * n, 3 * n);
        if is_zero(d.as_slice()) {
            return None;
        }
        Some(KeyPair { curve, x, y, d })
    }
}

impl Drop for KeyPair {
    /// Wipes the private scalar.
    fn drop(&mut self)
        opens_invariants none
        no_unwind
    {
        wipe(&mut self.d);
    }
}

/// Serializing a well-formed key pair and parsing the bytes back gives the
/// same curve, coordinates and scalar.
pub proof fn lemma_encoding_round_trip(kp: &KeyPair)
    requires
        kp.wf(),
    ensures
        spec_decode(kp.spec_curve(), kp.spec_encoding()) == Some(
            (kp.spec_x(), kp.spec_y(), kp.spec_d()),
        ),
        !is_zero_scalar(spec_decode(kp.spec_curve(), kp.spec_encoding())->Some_0.2),
{
    let n = kp.spec_curve().spec_field_len() as int;
    let s = kp.spec_encoding();
    assert(s.subrange(0, n) =~= kp.spec_x());
    assert(s.subrange(n, 2 * n) =~= kp.spec_y());
    assert(s.subrange(2 * n, 3 * n) =~= kp.spec_d());
}

/// Relies on `Zeroize::zeroize` for `Vec`: the contents are overwritten with
/// zeros, then the vector is cleared.
#[verifier::external_body]
pub(crate) fn wipe(buf: &mut Vec<u8>)
    ensures
        final(buf)@.len() == 0,
    opens_invariants none
    no_unwind
{
    Zeroize::zeroize(buf)
}

/// Whether every byte is zero.
pub fn is_zero(s: &[u8]) -> (r: bool)
    ensures
        r == is_zero_scalar(s@),
{
    let mut i: usize = 0;
    while i < s.len()
        invariant
            i <= s@.len(),
            forall|j: int| 0 <= j < i ==> s@[j] == 0,
        decreases s@.len() - i,
    {
        if s[i] != 0 {
            return false;
        }
        i = i + 1;
    }
    true
}

/// Left-pads `bytes` with zeros to `width`; `None` when it is wider.
pub fn left_pad(bytes: &[u8], width: usize) -> (r: Option<Vec<u8>>)
    ensures
        r is Some <==> bytes@.len() <= width,
        r matches Some(v) ==> v@ == spec_left_pad(bytes@, width as nat),
{
    if bytes.len() > width {
        return None;
    }
    let pad = width - bytes.len();
    let mut out: Vec<u8> = Vec::with_capacity(width);
    let mut i: usize = 0;
    while i < pad
        invariant
            i <= pad,
            out@ == Seq::new(i as nat, |k: int| 0u8),
        decreases pad - i,
    {
        out.push(0u8);
        i = i + 1;
        assert(out@ =~= Seq::new(i as nat, |k: int| 0u8));
    }
    append_bytes(&mut out, bytes);
    assert(out@ =~= spec_left_pad(bytes@, width as nat));
    Some(out)
}

/// Appends `src` to `dst`.
fn append_bytes(dst: &mut Vec<u8>, src: &[u8])
    ensures
        final(dst)@ == old(dst)@ + src@,
{
    let ghost start = dst@;
    let mut i: usize = 0;
    while i < src.len()
        invariant
            i <= src@.len(),
            dst@ == start + src@.subrange(0, i as int),
        decreases src@.len() - i,
    {
        dst.push(src[i]);
        i = i + 1;
        assert(dst@ =~= start + src@.subrange(0, i as int));
    }
    assert(src@.subrange(0, src@.len() as int) =~= src@);
}

/// A copy of `src[lo..hi]`.
fn copy_range(src: &[u8], lo: usize, hi: usize) -> (r: Vec<u8>)
    requires
        lo <= hi <= src@.len(),
    ensures
        r@ == src@.subrange(lo as int, hi as int),
{
    let mut out: Vec<u8> = Vec::with_capacity(hi - lo);
    let mut i: usize = lo;
    while i < hi
        invariant
            lo <= i <= hi,
            hi <= src@.len(),
            out@ == src@.subrange(lo as int, i as int),
        decreases hi - i,
    {
        out.push(src[i]);
        i = i + 1;
        assert(out@ =~= src@.subrange(lo as int, i as int));
    }
    out
}

} // verus!
