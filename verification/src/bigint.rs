use vstd::prelude::*;

verus! {

#[verifier::external_type_specification]
#[verifier::external_body]
pub struct ExBigInt(num::BigInt);

// The mathematical integer held by a `num::BigInt` value.
pub uninterp spec fn big_value(b: num::BigInt) -> int;

/// Relies on `num::Signed::abs` for `num::BigInt`: the result is the
/// absolute value of the argument.
#[verifier::external_body]
pub(crate) fn big_abs(b: &num::BigInt) -> (r: num::BigInt)
    ensures
        big_value(r) == crate::abs_int(big_value(*b)),
{
    num::Signed::abs(b)
}

/// Relies on `num::ToPrimitive::to_u64` for `num::BigInt`: the result is
/// `Some` exactly when the value is representable as a `u64`, and then
/// holds that value.
#[verifier::external_body]
pub(crate) fn big_to_u64(b: &num::BigInt) -> (r: Option<u64>)
    ensures
        0 <= big_value(*b) <= u64::MAX ==> r == Some(big_value(*b) as u64),
        !(0 <= big_value(*b) <= u64::MAX) ==> r is None,
{
    num::ToPrimitive::to_u64(b)
}

} // verus!
