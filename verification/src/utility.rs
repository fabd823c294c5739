//! Names and the one selection that the whole renderer shares.

use vstd::prelude::*;
use crate::scalar::Scalar;
use crate::vec3::Vec3;

verus! {

/// The bits of the largest channel value that is shown: the double nearest to
/// nine hundred and ninety-nine thousandths.
pub const CHANNEL_MAX_BITS: u64 = 0x3FEF_F7CE_D916_872B;

/// A vector read as a position.
pub type Point3 = Vec3;

/// A vector read as red, green and blue.
pub type Color = Vec3;

/// `x` brought into `[min, max]`: `min` where `x` is below it, `max` where `x`
/// is above it, else `x` itself. A NaN `x` is below and above nothing and
/// comes back unchanged.
pub open spec fn spec_clamp(x: Scalar, min: Scalar, max: Scalar) -> Scalar {
    if x.spec_lt(min) {
        min
    } else if x.spec_gt(max) {
        max
    } else {
        x
    }
}

#[verifier::when_used_as_spec(spec_clamp)]
pub fn clamp(x: Scalar, min: Scalar, max: Scalar) -> (r: Scalar)
    ensures
        r == spec_clamp(x, min, max),
        !x.spec_is_nan() && min.spec_le(max) ==> min.spec_le(r) && r.spec_le(max),
{
    if x.lt(min) {
        min
    } else if x.gt(max) {
        max
    } else {
        x
    }
}

/// A colour channel brought into the range that an image can show, from zero
/// to just under one.
pub fn displayable(channel: Scalar) -> (r: Scalar)
    ensures
        r == spec_clamp(channel, Scalar::spec_zero(), Scalar { bits: CHANNEL_MAX_BITS }),
        !channel.spec_is_nan() ==> Scalar::spec_zero().spec_le(r) && r.spec_lt(Scalar::spec_one()),
{
    clamp(channel, Scalar::zero(), Scalar::from_bits(CHANNEL_MAX_BITS))
}

} // verus!
