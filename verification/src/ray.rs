//! A half-line: where it starts and where it heads.

use vstd::prelude::*;
use crate::utility::Point3;
use crate::vec3::Vec3;
use crate::scalar::Scalar;

verus! {

#[derive(Clone, Copy, Debug)]
pub struct Ray {
    pub origin: Point3,
    pub dir: Vec3,
}

impl Ray {
    pub open spec fn spec_new(origin: Point3, dir: Vec3) -> Ray {
        Ray { origin, dir }
    }

    pub open spec fn spec_origin(&self) -> Point3 {
        self.origin
    }

    pub open spec fn spec_direction(&self) -> Vec3 {
        self.dir
    }

    /// The ray from `origin` along `dir`. The direction need not have length
    /// one.
    #[verifier::when_used_as_spec(spec_new)]
    pub fn new(origin: Point3, dir: Vec3) -> (r: Ray)
        ensures
            r == Ray::spec_new(origin, dir),
            r.origin == origin,
            r.dir == dir,
    {
        Ray { origin, dir }
    }

    #[verifier::when_used_as_spec(spec_origin)]
    pub fn origin(&self) -> (r: Point3)
        ensures
            r == self.origin,
    {
        self.origin
    }

    #[verifier::when_used_as_spec(spec_direction)]
    pub fn direction(&self) -> (r: Vec3)
        ensures
            r == self.dir,
    {
        self.dir
    }
}

impl Default for Ray {
    /// The ray from the origin with the zero direction.
    fn default() -> (r: Ray)
        ensures
            r.origin == Vec3::spec_new(Scalar::spec_zero(), Scalar::spec_zero(), Scalar::spec_zero()),
            r.dir == r.origin,
    {
        Ray { origin: Vec3::default(), dir: Vec3::default() }
    }
}

} // verus!
