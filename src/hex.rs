use vstd::prelude::*;
use vstd::string::StringExecFns;

use crate::error::KeygenError;
use crate::keypair::KeyPair;
use std::collections::TryReserveError;

verus! {

/// Lower-case hexadecimal digit of a nibble.
pub open spec fn hex_digit(n: u8) -> char {
    if n < 10 {
        ((n + 48) as u8) as char
    } else {
        ((n + 87) as u8) as char
    }
}

/// Lower-case hexadecimal text of `bytes`: two digits per byte, high nibble first.
pub open spec fn spec_hex(bytes: Seq<u8>) -> Seq<char> {
    Seq::new(
        2 * bytes.len(),
        |i: int|
            if i % 2 == 0 {
                hex_digit(bytes[i / 2] >> 4u8)
            } else {
                hex_digit(bytes[i / 2] & 15u8)
            },
    )
}

/// The three-line report of a key pair, given the hexadecimal text of its parts.
pub open spec fn spec_report(x: Seq<char>, y: Seq<char>, d: Seq<char>) -> Seq<char> {
    "pub.x = "@ + x + "\n"@ + "pub.y = "@ + y + "\n"@ + "priv  = "@ + d + "\n"@
}

/// Relies on `cmpa::hexstr::bytes_to_hexstr`: two lower-case digits per byte,
/// high nibble first; it fails only when the string cannot be allocated.
#[verifier::external_body]
fn bytes_to_hexstr(bytes: &[u8]) -> (r: Result<String, TryReserveError>)
    ensures
        r matches Ok(s) ==> s@ == spec_hex(bytes@),
{
    cmpa::hexstr::bytes_to_hexstr(bytes)
}

/// Hexadecimal text of `bytes`.
pub fn to_hex(bytes: &[u8]) -> (r: Result<String, KeygenError>)
    ensures
        r matches Ok(s) ==> s@ == spec_hex(bytes@),
        r matches Err(e) ==> e == KeygenError::AllocationFailure,
{
    match bytes_to_hexstr(bytes) {
        Ok(s) => Ok(s),
        Err(_) => Err(KeygenError::AllocationFailure),
    }
}

/// Lays out the report from the hexadecimal text of `x`, `y` and `d`.
pub fn format_report(x: &str, y: &str, d: &str) -> (r: String)
    ensures
        r@ == spec_report(x@, y@, d@),
{
    let mut out = String::new();
    out.append("pub.x = ");
    out.append(x);
    out.append("\n");
    out.append("pub.y = ");
    out.append(y);
    out.append("\n");
    out.append("priv  = ");
    out.append(d);
    out.append("\n");
    assert(out@ =~= spec_report(x@, y@, d@));
    out
}

/// The report of a key pair: public x, public y and private scalar in hexadecimal.
pub fn key_report(kp: &KeyPair) -> (r: Result<String, KeygenError>)
    ensures
        r matches Ok(s) ==> s@ == spec_report(spec_hex(kp.spec_x()), spec_hex(kp.spec_y()), spec_hex(kp.spec_d())),
        r matches Err(e) ==> e == KeygenError::AllocationFailure,
{
    let x = to_hex(kp.public_x())?;
    let y = to_hex(kp.public_y())?;
    let d = to_hex(kp.private_d())?;
    Ok(format_report(x.as_str(), y.as_str(), d.as_str()))
}

} // verus!
