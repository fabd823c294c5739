//! Three scalars: a point, a direction or a colour, as the caller reads them.

use vstd::prelude::*;
use crate::scalar::Scalar;

verus! {

/// The bits of the bound under which a component counts as vanishing: the
/// double nearest to ten to the minus eight.
pub const NEAR_ZERO_BITS: u64 = 0x3E45_798E_E230_8C3A;

#[derive(Clone, Copy, Debug)]
pub struct Vec3 {
    pub e: [Scalar; 3],
}

impl Vec3 {
    /// The vector with the given components.
    pub open spec fn spec_new(x: Scalar, y: Scalar, z: Scalar) -> Vec3 {
        Vec3 { e: [x, y, z] }
    }

    pub open spec fn spec_x(&self) -> Scalar {
        self.e[0]
    }

    pub open spec fn spec_y(&self) -> Scalar {
        self.e[1]
    }

    pub open spec fn spec_z(&self) -> Scalar {
        self.e[2]
    }

    /// The bound of `near_zero`.
    pub open spec fn near_zero_bound() -> Scalar {
        Scalar { bits: NEAR_ZERO_BITS }
    }

    /// Every component is smaller in absolute value than the bound. A NaN
    /// component is not small.
    pub open spec fn spec_near_zero(&self) -> bool {
        &&& self.e[0].spec_abs().spec_lt(Self::near_zero_bound())
        &&& self.e[1].spec_abs().spec_lt(Self::near_zero_bound())
        &&& self.e[2].spec_abs().spec_lt(Self::near_zero_bound())
    }

    /// Every component is a zero, of either sign.
    pub open spec fn is_zero(self) -> bool {
        &&& self.e[0].spec_same(Scalar::spec_zero())
        &&& self.e[1].spec_same(Scalar::spec_zero())
        &&& self.e[2].spec_same(Scalar::spec_zero())
    }

    /// Every component is a number other than the two infinities.
    pub open spec fn spec_is_finite(&self) -> bool {
        &&& self.e[0].spec_is_finite()
        &&& self.e[1].spec_is_finite()
        &&& self.e[2].spec_is_finite()
    }

    /// The vector with every component negated.
    pub open spec fn spec_neg(self) -> Vec3 {
        Vec3 { e: [self.e[0].spec_neg(), self.e[1].spec_neg(), self.e[2].spec_neg()] }
    }

    #[verifier::when_used_as_spec(spec_new)]
    pub fn new(x: Scalar, y: Scalar, z: Scalar) -> (r: Vec3)
        ensures
            r == Vec3::spec_new(x, y, z),
            r.spec_x() == x,
            r.spec_y() == y,
            r.spec_z() == z,
    {
        Vec3 { e: [x, y, z] }
    }

    #[verifier::when_used_as_spec(spec_x)]
    pub fn x(&self) -> (r: Scalar)
        ensures
            r == self.spec_x(),
    {
        self.e[0]
    }

    #[verifier::when_used_as_spec(spec_y)]
    pub fn y(&self) -> (r: Scalar)
        ensures
            r == self.spec_y(),
    {
        self.e[1]
    }

    #[verifier::when_used_as_spec(spec_z)]
    pub fn z(&self) -> (r: Scalar)
        ensures
            r == self.spec_z(),
    {
        self.e[2]
    }

    /// Whether the vector is too short to serve as a direction.
    #[verifier::when_used_as_spec(spec_near_zero)]
    pub fn near_zero(&self) -> (r: bool)
        ensures
            r == self.spec_near_zero(),
    {
        let s = Scalar::from_bits(NEAR_ZERO_BITS);
        self.e[0].abs().lt(s) && self.e[1].abs().lt(s) && self.e[2].abs().lt(s)
    }

    /// Whether the vector is a point of space.
    #[verifier::when_used_as_spec(spec_is_finite)]
    pub fn is_finite(&self) -> (r: bool)
        ensures
            r == self.spec_is_finite(),
    {
        self.e[0].is_finite() && self.e[1].is_finite() && self.e[2].is_finite()
    }

    #[verifier::when_used_as_spec(spec_neg)]
    pub fn neg(self) -> (r: Vec3)
        ensures
            r == self.spec_neg(),
    {
        Vec3 { e: [self.e[0].neg(), self.e[1].neg(), self.e[2].neg()] }
    }

    /// Whether a sample with the given squared length lies inside the unit
    /// ball, and so ends a rejection loop.
    pub fn inside_unit_ball(len_sqr: Scalar) -> (r: bool)
        ensures
            r == len_sqr.spec_lt(Scalar::spec_one()),
    {
        len_sqr.lt(Scalar::one())
    }

    /// A zero vector is near zero, and a vector that is near zero has no NaN
    /// component.
    pub proof fn lemma_zero_is_near_zero(self)
        ensures
            self.is_zero() ==> self.spec_near_zero(),
            self.spec_near_zero() ==> !self.e[0].spec_is_nan() && !self.e[1].spec_is_nan()
                && !self.e[2].spec_is_nan(),
    {
    }
}

impl Default for Vec3 {
    /// The zero vector.
    fn default() -> (r: Vec3)
        ensures
            r == Vec3::spec_new(Scalar::spec_zero(), Scalar::spec_zero(), Scalar::spec_zero()),
    {
        Vec3 { e: [Scalar::zero(), Scalar::zero(), Scalar::zero()] }
    }
}

} // verus!
