//! How a surface answers an incoming ray: with a colour and a new ray, or
//! with nothing.
//!
//! What a material does with a ray has two parts. The arithmetic part makes a
//! direction: a mirror image, a bent ray, a random offset. The deciding part
//! says whether that direction is used, replaced or dropped, and what colour
//! goes with it. The functions here are the deciding part. They take the
//! direction that the arithmetic proposed.

use vstd::prelude::*;
use crate::hitrecord::HitRecord;
use crate::ray::Ray;
use crate::scalar::Scalar;
use crate::utility::Color;
use crate::vec3::Vec3;

verus! {

/// A direction in which a ray might leave a surface.
#[derive(Clone, Copy, Debug)]
pub struct Outgoing {
    /// The direction itself.
    pub direction: Vec3,
    /// Its dot product with the normal of the hit record.
    pub facing: Scalar,
}

/// The material that scatters nothing. It stands in a hit record until a
/// surface is found.
#[derive(Clone, Copy, Debug)]
pub struct Empty;

/// A matte surface.
#[derive(Clone, Copy, Debug)]
pub struct Lambertian {
    pub albedo: Color,
}

/// A mirror, blurred by `fuzz`, which is meant to lie between zero and one.
#[derive(Clone, Copy, Debug)]
pub struct Metal {
    pub albedo: Color,
    pub fuzz: Scalar,
}

/// A clear body such as glass, with its index of refraction.
#[derive(Clone, Copy, Debug)]
pub struct Dielectric {
    pub ir: Scalar,
}

/// Any of the materials.
#[derive(Clone, Copy, Debug)]
pub enum Material {
    Empty(Empty),
    Lambertian(Lambertian),
    Metal(Metal),
    Dielectric(Dielectric),
}

impl Empty {
    /// Absorbs every ray.
    pub fn scatter(&self, rec: &HitRecord, out: &Outgoing) -> (r: Option<(Color, Ray)>)
        ensures
            r is None,
    {
        None
    }
}

impl Lambertian {
    pub open spec fn spec_new(albedo: Color) -> Lambertian {
        Lambertian { albedo }
    }

    #[verifier::when_used_as_spec(spec_new)]
    pub fn new(albedo: Color) -> (r: Lambertian)
        ensures
            r == Lambertian::spec_new(albedo),
            r.albedo == albedo,
    {
        Lambertian { albedo }
    }

    /// The direction in which a matte surface sends a ray: the proposed one,
    /// unless it vanishes, and then the normal.
    pub open spec fn direction(rec: HitRecord, out: Outgoing) -> Vec3 {
        if out.direction.spec_near_zero() {
            rec.normal
        } else {
            out.direction
        }
    }

    pub open spec fn spec_scatter(&self, rec: HitRecord, out: Outgoing) -> Option<(Color, Ray)> {
        Some((self.albedo, Ray::spec_new(rec.point, Self::direction(rec, out))))
    }

    /// Always scatters, with the albedo as attenuation, from the hit point.
    ///
    /// `out.direction` is the normal plus a random unit vector. Where the two
    /// cancel, the ray leaves along the normal instead, so that it never
    /// leaves a surface with a proper normal in a vanishing direction.
    pub fn scatter(&self, rec: &HitRecord, out: &Outgoing) -> (r: Option<(Color, Ray)>)
        ensures
            r == self.spec_scatter(*rec, *out),
            r is Some,
            !rec.normal.spec_near_zero() ==> !Self::direction(*rec, *out).spec_near_zero()
                && !Self::direction(*rec, *out).is_zero(),
    {
        let direction = if out.direction.near_zero() {
            rec.normal
        } else {
            out.direction
        };
        proof {
            direction.lemma_zero_is_near_zero();
        }
        Some((self.albedo, Ray::new(rec.point, direction)))
    }
}

impl Metal {
    pub open spec fn spec_new(albedo: Color, fuzz: Scalar) -> Metal {
        Metal { albedo, fuzz }
    }

    #[verifier::when_used_as_spec(spec_new)]
    pub fn new(albedo: Color, fuzz: Scalar) -> (r: Metal)
        ensures
            r == Metal::spec_new(albedo, fuzz),
            r.albedo == albedo,
            r.fuzz == fuzz,
    {
        Metal { albedo, fuzz }
    }

    pub open spec fn spec_scatter(&self, rec: HitRecord, out: Outgoing) -> Option<(Color, Ray)> {
        if out.facing.spec_gt(Scalar::spec_zero()) {
            Some((self.albedo, Ray::spec_new(rec.point, out.direction)))
        } else {
            None
        }
    }

    /// Scatters exactly if the proposed direction leaves the surface.
    ///
    /// `out.direction` is the mirror image of the incoming direction, plus
    /// `fuzz` times a random point of the unit ball. Where its dot product
    /// with the normal is not above zero, the blur has pushed it under the
    /// surface and the ray is absorbed.
    pub fn scatter(&self, rec: &HitRecord, out: &Outgoing) -> (r: Option<(Color, Ray)>)
        ensures
            r == self.spec_scatter(*rec, *out),
            r is None <==> !out.facing.spec_gt(Scalar::spec_zero()),
            !out.facing.spec_is_nan() ==> (r is None <==> out.facing.spec_le(Scalar::spec_zero())),
    {
        if out.facing.gt(Scalar::zero()) {
            Some((self.albedo, Ray::new(rec.point, out.direction)))
        } else {
            None
        }
    }
}

impl Dielectric {
    pub open spec fn spec_new(ir: Scalar) -> Dielectric {
        Dielectric { ir }
    }

    #[verifier::when_used_as_spec(spec_new)]
    pub fn new(ir: Scalar) -> (r: Dielectric)
        ensures
            r == Dielectric::spec_new(ir),
            r.ir == ir,
    {
        Dielectric { ir }
    }

    /// The colour that a clear body leaves to a ray: all of it.
    pub open spec fn white() -> Color {
        Vec3::spec_new(Scalar::spec_one(), Scalar::spec_one(), Scalar::spec_one())
    }

    /// The ratio of the indices on the two sides of the surface: that of the
    /// body for a ray that leaves it, `reciprocal` for a ray that enters.
    pub fn refraction_ratio(&self, front_face: bool, reciprocal: Scalar) -> (r: Scalar)
        ensures
            r == if front_face { reciprocal } else { self.ir },
    {
        if front_face {
            reciprocal
        } else {
            self.ir
        }
    }

    /// The cosine of the angle between the incoming ray and the normal, from
    /// the dot product `dot` of the unit direction with the normal: the
    /// negated dot product, capped at one.
    pub fn cos_theta(dot: Scalar) -> (r: Scalar)
        ensures
            r == Scalar::spec_one().spec_min(dot.spec_neg()),
            !r.spec_is_nan(),
            r.spec_le(Scalar::spec_one()),
    {
        Scalar::one().min(dot.neg())
    }

    /// Whether the ray is mirrored rather than bent.
    ///
    /// `bend` is the refraction ratio times the sine of the angle of
    /// incidence: above one, no bent ray exists. `reflectance` is the share
    /// of light that the surface mirrors at this angle, and `draw` a random
    /// number: the ray is mirrored if the draw falls below the share.
    pub fn reflects(bend: Scalar, reflectance: Scalar, draw: Scalar) -> (r: bool)
        ensures
            r == (bend.spec_gt(Scalar::spec_one()) || draw.spec_lt(reflectance)),
    {
        bend.gt(Scalar::one()) || draw.lt(reflectance)
    }

    pub open spec fn spec_scatter(&self, rec: HitRecord, out: Outgoing) -> Option<(Color, Ray)> {
        Some((Self::white(), Ray::spec_new(rec.point, out.direction)))
    }

    /// Always scatters, and absorbs nothing.
    ///
    /// `out.direction` is the mirrored direction where `reflects` said so,
    /// else the bent one.
    pub fn scatter(&self, rec: &HitRecord, out: &Outgoing) -> (r: Option<(Color, Ray)>)
        ensures
            r == self.spec_scatter(*rec, *out),
            r is Some,
    {
        let one = Scalar::one();
        Some((Vec3::new(one, one, one), Ray::new(rec.point, out.direction)))
    }
}

impl Material {
    pub open spec fn spec_scatter(&self, rec: HitRecord, out: Outgoing) -> Option<(Color, Ray)> {
        match *self {
            Material::Empty(_) => None,
            Material::Lambertian(m) => m.spec_scatter(rec, out),
            Material::Metal(m) => m.spec_scatter(rec, out),
            Material::Dielectric(m) => m.spec_scatter(rec, out),
        }
    }

    /// What the material makes of a ray that hit it at `rec`: the attenuation
    /// and the ray that goes on, or nothing where the ray is absorbed.
    pub fn scatter(&self, rec: &HitRecord, out: &Outgoing) -> (r: Option<(Color, Ray)>)
        ensures
            r == self.spec_scatter(*rec, *out),
            r is Some ==> r.unwrap().1.origin == rec.point,
            self is Empty ==> r is None,
            self is Lambertian ==> r is Some,
            self is Dielectric ==> r is Some,
            self is Metal ==> (r is None <==> !out.facing.spec_gt(Scalar::spec_zero())),
    {
        match self {
            Material::Empty(m) => m.scatter(rec, out),
            Material::Lambertian(m) => m.scatter(rec, out),
            Material::Metal(m) => m.scatter(rec, out),
            Material::Dielectric(m) => m.scatter(rec, out),
        }
    }
}

} // verus!
