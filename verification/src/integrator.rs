//! The estimate of the light that arrives along a ray.
//!
//! A path starts at the camera and is followed from surface to surface. At
//! each surface the material takes its share of the light, the attenuation,
//! and sends the path on, or absorbs it. The path ends in black when it is
//! absorbed or has used up its bounces, and in the sky when it leaves the
//! scene. The light along the first ray is then the product of the
//! attenuations, taken from the last to the first, with the colour at the
//! end.
//!
//! The products and the colour of the sky are arithmetic and the caller's.
//! Here is the course of the path: what is asked next, and when it is over.

use vstd::prelude::*;
use crate::hitrecord::HitRecord;
use crate::hittable::{Crossing, GeometryError, HittableList};
use crate::ray::Ray;
use crate::scalar::{Scalar, ONE_BITS};
use crate::utility::Color;
use crate::vec3::Vec3;

verus! {

/// The bits of the smallest parameter at which a hit counts: the double
/// nearest to a thousandth. Nearer hits are the surface that the ray has just
/// left, found again by rounding.
pub const T_MIN_BITS: u64 = 0x3F50_624D_D2F1_A9FC;

/// The bits of one half.
pub const HALF_BITS: u64 = 0x3FE0_0000_0000_0000;

/// The bits of the double nearest to seven tenths.
pub const SEVEN_TENTHS_BITS: u64 = 0x3FE6_6666_6666_6666;

/// Where a path stands.
#[derive(Clone, Copy, Debug)]
pub enum Estimate {
    /// The scene is to be searched along `ray`; `depth` bounces are left.
    Tracing { ray: Ray, depth: i32 },
    /// `ray` has hit a surface, whose material is to answer.
    Struck { ray: Ray, depth: i32 },
    /// The path is over and brings no light.
    Black,
    /// The path is over: `ray` has left the scene and sees the sky.
    Sky { ray: Ray },
}

impl Estimate {
    /// Where a path along `ray` with `depth` bounces left stands at first:
    /// at its end, in black, where no bounce is left.
    pub open spec fn start(ray: Ray, depth: int) -> Estimate {
        if depth <= 0 {
            Estimate::Black
        } else {
            Estimate::Tracing { ray, depth: depth as i32 }
        }
    }

    /// Where the path stands after the scene was searched: a path that was
    /// tracing has struck a surface or seen the sky.
    pub open spec fn looked(self, hit: bool) -> Estimate {
        match self {
            Estimate::Tracing { ray, depth } => if hit {
                Estimate::Struck { ray, depth }
            } else {
                Estimate::Sky { ray }
            },
            _ => self,
        }
    }

    /// Where the path stands after the material has answered: a path that had
    /// struck a surface is absorbed, or goes on with one bounce less.
    pub open spec fn bounced(self, scattered: Option<(Color, Ray)>) -> Estimate {
        match self {
            Estimate::Struck { ray, depth } => match scattered {
                Some((_, next)) => Self::start(next, depth - 1),
                None => Estimate::Black,
            },
            _ => self,
        }
    }

    /// The bounces that are left to the path.
    pub open spec fn remaining(self) -> int {
        match self {
            Estimate::Tracing { ray, depth } => depth as int,
            Estimate::Struck { ray, depth } => depth as int,
            _ => 0,
        }
    }

    /// Whether the path is over.
    pub open spec fn spec_is_done(&self) -> bool {
        *self is Black || *self is Sky
    }

    #[verifier::when_used_as_spec(spec_is_done)]
    pub fn is_done(&self) -> (r: bool)
        ensures
            r == self.spec_is_done(),
    {
        match self {
            Estimate::Black => true,
            Estimate::Sky { .. } => true,
            _ => false,
        }
    }
}

/// A path from the camera into the scene, as far as it has been followed.
#[derive(Debug)]
pub struct Path {
    budget: i32,
    attenuations: Vec<Color>,
    state: Estimate,
}

impl Path {
    #[verifier::type_invariant]
    spec fn inv(self) -> bool {
        &&& 0 <= self.budget
        &&& self.attenuations@.len() + self.state.remaining() <= self.budget
        &&& !self.state.spec_is_done() ==> self.state.remaining() >= 1
            && self.attenuations@.len() + self.state.remaining() == self.budget
    }

    /// The bounces that the path was given at its start.
    pub closed spec fn budget(&self) -> int {
        self.budget as int
    }

    /// The attenuations of the surfaces met so far, the first surface first.
    pub closed spec fn spec_attenuations(&self) -> Seq<Color> {
        self.attenuations@
    }

    /// Where the path stands.
    pub closed spec fn spec_state(&self) -> Estimate {
        self.state
    }

    #[verifier::when_used_as_spec(spec_state)]
    pub fn state(&self) -> (r: Estimate)
        ensures
            r == self.spec_state(),
            !r.spec_is_done() ==> r.remaining() >= 1,
    {
        proof {
            use_type_invariant(self);
        }
        self.state
    }

    /// The attenuations of the surfaces met so far, the first surface first.
    /// There are never more of them than the path was given bounces.
    pub fn attenuations(&self) -> (r: &Vec<Color>)
        ensures
            r@ == self.spec_attenuations(),
            r@.len() <= self.budget(),
    {
        proof {
            use_type_invariant(self);
        }
        &self.attenuations
    }

    /// The ray along which the scene is to be searched next, if the path
    /// waits for that.
    pub fn pending(&self) -> (r: Option<Ray>)
        ensures
            r == match self.spec_state() {
                Estimate::Tracing { ray, depth } => Some(ray),
                _ => None,
            },
    {
        match self.state {
            Estimate::Tracing { ray, depth } => Some(ray),
            _ => None,
        }
    }

    /// The interval of parameters in which a hit counts: from a thousandth
    /// on, without end.
    pub open spec fn spec_t_min() -> Scalar {
        Scalar { bits: T_MIN_BITS }
    }

    #[verifier::when_used_as_spec(spec_t_min)]
    pub fn t_min() -> (r: Scalar)
        ensures
            r == Self::spec_t_min(),
    {
        Scalar::from_bits(T_MIN_BITS)
    }

    /// Searches the scene along the pending ray.
    ///
    /// `crossings` holds, sphere by sphere, how that ray crosses it. A path
    /// that does not wait for a search is left alone, and so is the record.
    /// Else the closest hit from a thousandth on is looked for, as
    /// `HittableList::hit` does. On an error nothing changes. Where nothing is
    /// hit, the path ends in the sky. Where sphere `i` is hit, the answer is
    /// `i`, the record is that of the hit, and the path waits for the
    /// material's answer.
    pub fn look(&mut self, world: &HittableList, crossings: &Vec<Crossing>, rec: &mut HitRecord) -> (r:
        Result<Option<usize>, GeometryError>)
        ensures
            final(self).budget() == old(self).budget(),
            final(self).spec_attenuations() == old(self).spec_attenuations(),
            !(old(self).spec_state() is Tracing) ==> r == Ok::<Option<usize>, GeometryError>(None)
                && final(self).spec_state() == old(self).spec_state() && *final(rec) == *old(rec),
            old(self).spec_state() is Tracing ==> {
                &&& r is Ok <==> crossings@.len() == world@.len() && HittableList::proper(
                    crossings@,
                )
                &&& r is Err ==> r.unwrap_err() == GeometryError::InvalidRay && final(self).spec_state() == old(self).spec_state() && *final(rec) == *old(rec)
                &&& r is Ok ==> (r.unwrap() is None <==> HittableList::no_hit(
                    crossings@,
                    Self::spec_t_min(),
                    Scalar::spec_infinity(),
                ))
                &&& r is Ok ==> final(self).spec_state() == old(self).spec_state().looked(
                    r.unwrap() is Some,
                )
                &&& r is Ok && r.unwrap() is None ==> *final(rec) == *old(rec)
                &&& r is Ok && r.unwrap() is Some ==> {
                    let i = r.unwrap().unwrap() as int;
                    &&& HittableList::is_closest(
                        crossings@,
                        Self::spec_t_min(),
                        Scalar::spec_infinity(),
                        i,
                        final(rec).t,
                    )
                    &&& *final(rec) == HittableList::record(
                        final(rec).t,
                        world@[i].spec_material(),
                    )
                }
            },
    {
        proof {
            use_type_invariant(&*self);
        }
        match self.state {
            Estimate::Tracing { ray, depth } => {
                let found = world.hit(crossings, Self::t_min(), Scalar::infinity(), rec)?;
                match found {
                    Some(i) => {
                        self.state = Estimate::Struck { ray, depth };
                    },
                    None => {
                        self.state = Estimate::Sky { ray };
                    },
                }
                Ok(found)
            },
            _ => Ok(None),
        }
    }

    /// Takes the material's answer to the hit.
    ///
    /// A path that has not struck a surface is left alone. Else, where the
    /// material absorbed the ray, the path ends in black. Where it scattered,
    /// its attenuation is noted and the path goes on along the scattered ray
    /// with one bounce less; with none left, it ends in black.
    pub fn bounce(&mut self, scattered: Option<(Color, Ray)>)
        ensures
            final(self).budget() == old(self).budget(),
            final(self).spec_state() == old(self).spec_state().bounced(scattered),
            final(self).spec_attenuations() == if old(self).spec_state() is Struck
                && scattered is Some {
                old(self).spec_attenuations().push(scattered.unwrap().0)
            } else {
                old(self).spec_attenuations()
            },
            old(self).spec_state() is Struck ==> final(self).spec_state().remaining() < old(self).spec_state().remaining(),
    {
        proof {
            use_type_invariant(&*self);
        }
        match self.state {
            Estimate::Struck { ray, depth } => {
                match scattered {
                    Some((attenuation, next)) => {
                        let mut taken = Path {
                            budget: 0,
                            attenuations: Vec::new(),
                            state: Estimate::Black,
                        };
                        core::mem::swap(self, &mut taken);
                        let Path { budget, attenuations, state } = taken;
                        let mut attenuations = attenuations;
                        attenuations.push(attenuation);
                        let state = if depth - 1 <= 0 {
                            Estimate::Black
                        } else {
                            Estimate::Tracing { ray: next, depth: depth - 1 }
                        };
                        *self = Path { budget, attenuations, state };
                    },
                    None => {
                        self.state = Estimate::Black;
                    },
                }
            },
            _ => {},
        }
    }
}

/// Starts the estimate of the light along `r`, with `depth` bounces at most.
///
/// With no bounce to spend the estimate is black at once, whatever the ray
/// and the scene. Else the path waits for the scene to be searched along `r`.
pub fn ray_color(r: &Ray, depth: i32) -> (path: Path)
    ensures
        path.spec_state() == Estimate::start(*r, depth as int),
        path.spec_attenuations() == Seq::<Color>::empty(),
        path.budget() == if depth <= 0 { 0 } else { depth as int },
        depth <= 0 ==> path.spec_state() == Estimate::Black,
{
    if depth <= 0 {
        Path { budget: 0, attenuations: Vec::new(), state: Estimate::Black }
    } else {
        Path { budget: depth, attenuations: Vec::new(), state: Estimate::Tracing { ray: *r, depth } }
    }
}

/// With no sphere in the scene, every path that may bounce at all ends in the
/// sky along its first ray, and with no attenuation: nothing is ever hit.
pub proof fn lemma_empty_scene_sees_sky(ray: Ray, depth: i32)
    requires
        depth >= 1,
    ensures
        HittableList::proper(Seq::<Crossing>::empty()),
        HittableList::no_hit(Seq::<Crossing>::empty(), Path::spec_t_min(), Scalar::spec_infinity()),
        Estimate::start(ray, depth as int).looked(false) == (Estimate::Sky { ray }),
{
}

/// The colour of the sky straight ahead: white.
pub fn sky_white() -> (r: Color)
    ensures
        r == Vec3::spec_new(Scalar::spec_one(), Scalar::spec_one(), Scalar::spec_one()),
{
    let one = Scalar::from_bits(ONE_BITS);
    Vec3::new(one, one, one)
}

/// The colour of the sky overhead: a half of red, seven tenths of green, all
/// of blue.
pub fn sky_blue() -> (r: Color)
    ensures
        r == Vec3::spec_new(
            Scalar { bits: HALF_BITS },
            Scalar { bits: SEVEN_TENTHS_BITS },
            Scalar::spec_one(),
        ),
{
    Vec3::new(
        Scalar::from_bits(HALF_BITS),
        Scalar::from_bits(SEVEN_TENTHS_BITS),
        Scalar::from_bits(ONE_BITS),
    )
}

} // verus!
