//! Double-width integer arithmetic for the settlement engine's
//! multiply-before-divide steps.

use vstd::prelude::*;

use primitive_types::U256;

verus! {

/// Computes `a * b / d` with a 256-bit intermediate product, so the
/// multiplication cannot overflow for any 128-bit inputs.
///
/// Relies on `primitive_types::U256`: `From<u128>` converts exactly, `Mul`
/// is the exact product (two 128-bit factors always fit in 256 bits), `Div`
/// is the truncating quotient and panics only on a zero divisor, and
/// `as_u128` converts back exactly, panicking only above `u128::MAX`; the
/// `requires` rules both panics out.
#[verifier::external_body]
pub(crate) fn u256_mul_div(a: u128, b: u128, d: u128) -> (r: u128)
    requires
        0 < d,
        a as int * b as int / (d as int) <= u128::MAX as int,
    ensures
        r as int == a as int * b as int / (d as int),
{
    (U256::from(a) * U256::from(b) / U256::from(d)).as_u128()
}

} // verus!
