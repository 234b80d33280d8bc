use vstd::prelude::*;

use crate::errors::HonoraryQuoteFeeError;

verus! {

/// `⌊a · b / denominator⌋`, computed without leaving 128 bits.
///
/// Fails with `ArithmeticOverflow` when the denominator is zero or the
/// product does not fit in 128 bits.
pub fn mul_div_floor_u128(a: u128, b: u128, denominator: u128) -> (r: Result<
    u128,
    HonoraryQuoteFeeError,
>)
    ensures
        r is Ok <==> (denominator != 0 && a * b <= u128::MAX),
        r is Ok ==> r->Ok_0 == (a * b) / (denominator as int),
        r is Err ==> r->Err_0 == HonoraryQuoteFeeError::ArithmeticOverflow,
{
    if denominator == 0 {
        return Err(HonoraryQuoteFeeError::ArithmeticOverflow);
    }
    match a.checked_mul(b) {
        Some(product) => Ok(product / denominator),
        None => Err(HonoraryQuoteFeeError::ArithmeticOverflow),
    }
}

/// Narrows a 128-bit value to 64 bits, failing with `ArithmeticOverflow`
/// when it does not fit.
pub fn u128_to_u64(value: u128) -> (r: Result<u64, HonoraryQuoteFeeError>)
    ensures
        r is Ok <==> value <= u64::MAX,
        r is Ok ==> r->Ok_0 == value,
        r is Err ==> r->Err_0 == HonoraryQuoteFeeError::ArithmeticOverflow,
{
    if value > u64::MAX as u128 {
        return Err(HonoraryQuoteFeeError::ArithmeticOverflow);
    }
    Ok(value as u64)
}

/// `max(lhs - rhs, 0)`.
pub fn saturating_sub_u64(lhs: u64, rhs: u64) -> (r: u64)
    ensures
        r == if lhs >= rhs { lhs - rhs } else { 0 },
{
    if lhs >= rhs {
        lhs - rhs
    } else {
        0
    }
}

} // verus!
