//! What is known of the point where a ray met a surface.

use vstd::prelude::*;
use crate::material::{Empty, Material};
use crate::scalar::Scalar;
use crate::utility::Point3;
use crate::vec3::Vec3;

verus! {

#[derive(Clone, Copy, Debug)]
pub struct HitRecord {
    /// Where the ray met the surface.
    pub point: Point3,
    /// The surface normal there, turned against the incoming ray.
    pub normal: Vec3,
    /// The material of the surface.
    pub material: Material,
    /// The parameter of the ray at the hit.
    pub t: Scalar,
    /// Whether the ray came from outside the surface.
    pub front_face: bool,
}

impl HitRecord {
    /// The record of no hit: zero point, zero normal, the material that
    /// scatters nothing, parameter zero, back face.
    pub open spec fn spec_default() -> HitRecord {
        HitRecord {
            point: Vec3::spec_new(Scalar::spec_zero(), Scalar::spec_zero(), Scalar::spec_zero()),
            normal: Vec3::spec_new(Scalar::spec_zero(), Scalar::spec_zero(), Scalar::spec_zero()),
            material: Material::Empty(Empty),
            t: Scalar::spec_zero(),
            front_face: false,
        }
    }

    /// The dot product of a ray's direction with the stored normal, given its
    /// dot product `facing` with the outward normal. The stored normal is the
    /// outward one or its negation, and negating a vector negates the dot
    /// product bit for bit.
    pub open spec fn against(facing: Scalar, front_face: bool) -> Scalar {
        if front_face {
            facing
        } else {
            facing.spec_neg()
        }
    }

    /// Stores the side that was struck and the normal turned against the ray.
    ///
    /// `facing` is the dot product of the ray's direction with
    /// `outward_normal`. The ray came from outside exactly if it is below
    /// zero. The stored normal is then the outward one, else its negation, so
    /// that the ray never runs along the stored normal.
    pub fn set_face_normal(&mut self, facing: Scalar, outward_normal: &Vec3)
        ensures
            final(self).front_face == facing.spec_lt(Scalar::spec_zero()),
            final(self).normal == if facing.spec_lt(Scalar::spec_zero()) {
                *outward_normal
            } else {
                outward_normal.spec_neg()
            },
            final(self).point == old(self).point,
            final(self).material == old(self).material,
            final(self).t == old(self).t,
            !facing.spec_is_nan() ==> Self::against(facing, final(self).front_face).spec_le(
                Scalar::spec_zero(),
            ),
    {
        self.front_face = facing.lt(Scalar::zero());
        self.normal = if self.front_face {
            *outward_normal
        } else {
            outward_normal.neg()
        };
    }
}

impl Default for HitRecord {
    fn default() -> (r: HitRecord)
        ensures
            r == HitRecord::spec_default(),
    {
        HitRecord {
            point: Vec3::default(),
            normal: Vec3::default(),
            material: Material::Empty(Empty),
            t: Scalar::zero(),
            front_face: false,
        }
    }
}

} // verus!
