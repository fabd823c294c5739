//! Spheres, the scene that holds them, and the search for the closest hit.
//!
//! A ray meets a sphere where a quadratic in the ray's parameter vanishes.
//! Solving it is arithmetic and is left to the caller, who hands over the
//! outcome as a `Crossing`. What is decided here is which root counts as the
//! hit, and which of many spheres is hit first.

use vstd::prelude::*;
use crate::hitrecord::HitRecord;
use crate::material::Material;
use crate::scalar::Scalar;
use crate::utility::Point3;
use crate::vec3::Vec3;

verus! {

/// Why a primitive or a ray was turned away.
#[derive(Clone, Copy, Debug, PartialEq, Eq, Structural)]
pub enum GeometryError {
    /// A sphere whose centre is not a point or whose radius is not a length.
    InvalidPrimitive,
    /// A ray whose crossings with the scene are not those of a ray: a leading
    /// coefficient that is not above zero, as a direction of length zero gives
    /// it, roots in the wrong order, or not one crossing for each primitive.
    InvalidRay,
}

/// The quadratic of one ray against one sphere, solved.
#[derive(Clone, Copy, Debug)]
pub struct Crossing {
    /// The leading coefficient: the squared length of the ray's direction.
    pub a: Scalar,
    /// The discriminant. Below zero, the ray passes the sphere by.
    pub discriminant: Scalar,
    /// The smaller root: where the ray enters the sphere.
    pub near: Scalar,
    /// The larger root: where the ray leaves the sphere.
    pub far: Scalar,
}

impl Crossing {
    pub open spec fn spec_new(a: Scalar, discriminant: Scalar, near: Scalar, far: Scalar) -> Crossing {
        Crossing { a, discriminant, near, far }
    }

    /// The crossing with the given coefficient, discriminant and roots.
    /// Nothing is checked here: the hit tests check.
    #[verifier::when_used_as_spec(spec_new)]
    pub fn new(a: Scalar, discriminant: Scalar, near: Scalar, far: Scalar) -> (r: Crossing)
        ensures
            r == Crossing::spec_new(a, discriminant, near, far),
    {
        Crossing { a, discriminant, near, far }
    }

    /// What holds of the crossing of a proper ray: the leading coefficient is
    /// above zero, and the roots, where both are numbers, are in order.
    pub open spec fn wf(&self) -> bool {
        &&& Scalar::spec_zero().spec_lt(self.a)
        &&& (self.near.spec_is_nan() || self.far.spec_is_nan() || self.near.spec_le(self.far))
    }

    /// Whether `root` lies in `[t_min, t_max]`. A NaN lies in no interval.
    pub open spec fn within(root: Scalar, t_min: Scalar, t_max: Scalar) -> bool {
        t_min.spec_le(root) && root.spec_le(t_max)
    }

    /// The hit of this sphere alone within `[t_min, t_max]`: none where the
    /// discriminant is below zero; else the near root if it lies in the
    /// interval; else the far root if that does; else none.
    pub open spec fn root_in(self, t_min: Scalar, t_max: Scalar) -> Option<Scalar> {
        if self.discriminant.spec_lt(Scalar::spec_zero()) {
            None
        } else if Self::within(self.near, t_min, t_max) {
            Some(self.near)
        } else if Self::within(self.far, t_min, t_max) {
            Some(self.far)
        } else {
            None
        }
    }

    #[verifier::when_used_as_spec(wf)]
    pub fn is_valid(&self) -> (r: bool)
        ensures
            r == self.wf(),
    {
        Scalar::zero().lt(self.a) && (self.near.is_nan() || self.far.is_nan() || self.near.le(
            self.far,
        ))
    }

    /// The root at which the ray hits the sphere within `[t_min, t_max]`, if
    /// there is one. A crossing that is not that of a proper ray is an error.
    pub fn hit(&self, t_min: Scalar, t_max: Scalar) -> (r: Result<Option<Scalar>, GeometryError>)
        ensures
            r == if self.wf() {
                Ok::<Option<Scalar>, GeometryError>(self.root_in(t_min, t_max))
            } else {
                Err::<Option<Scalar>, GeometryError>(GeometryError::InvalidRay)
            },
    {
        if !self.is_valid() {
            return Err(GeometryError::InvalidRay);
        }
        if self.discriminant.lt(Scalar::zero()) {
            return Ok(None);
        }
        let mut root = self.near;
        if !(t_min.le(root) && root.le(t_max)) {
            root = self.far;
            if !(t_min.le(root) && root.le(t_max)) {
                return Ok(None);
            }
        }
        Ok(Some(root))
    }

    /// Lowering the upper bound of the interval takes a hit away or leaves it
    /// as it is: it never brings another root forward.
    pub proof fn lemma_tighten(self, t_min: Scalar, bound: Scalar, t_max: Scalar)
        requires
            self.wf(),
            bound.spec_le(t_max),
        ensures
            self.root_in(t_min, bound) == match self.root_in(t_min, t_max) {
                Some(t) => if t.spec_le(bound) {
                    Some(t)
                } else {
                    None
                },
                None => None,
            },
    {
    }
}

/// A ball in space, of one material.
#[derive(Clone, Copy, Debug)]
pub struct Sphere {
    center: Point3,
    radius: Scalar,
    material: Material,
}

impl Sphere {
    /// What makes a sphere: a centre whose coordinates are finite, and a
    /// finite radius above zero.
    pub open spec fn valid(center: Point3, radius: Scalar) -> bool {
        &&& center.spec_is_finite()
        &&& radius.spec_is_finite()
        &&& Scalar::spec_zero().spec_lt(radius)
    }

    #[verifier::type_invariant]
    spec fn inv(self) -> bool {
        Self::valid(self.center, self.radius)
    }

    pub closed spec fn spec_center(&self) -> Point3 {
        self.center
    }

    pub closed spec fn spec_radius(&self) -> Scalar {
        self.radius
    }

    pub closed spec fn spec_material(&self) -> Material {
        self.material
    }

    /// The sphere round `center` with the given radius and material, or an
    /// error where the two do not make a sphere.
    pub fn new(center: Point3, radius: Scalar, material: Material) -> (r: Result<
        Sphere,
        GeometryError,
    >)
        ensures
            r is Ok <==> Self::valid(center, radius),
            r is Ok ==> r.unwrap().spec_center() == center && r.unwrap().spec_radius() == radius
                && r.unwrap().spec_material() == material,
            r is Err ==> r.unwrap_err() == GeometryError::InvalidPrimitive,
    {
        if center.is_finite() && radius.is_finite() && Scalar::zero().lt(radius) {
            Ok(Sphere { center, radius, material })
        } else {
            Err(GeometryError::InvalidPrimitive)
        }
    }

    #[verifier::when_used_as_spec(spec_center)]
    pub fn center(&self) -> (r: Point3)
        ensures
            r == self.spec_center(),
            Self::valid(r, self.spec_radius()),
    {
        proof {
            use_type_invariant(self);
        }
        self.center
    }

    #[verifier::when_used_as_spec(spec_radius)]
    pub fn radius(&self) -> (r: Scalar)
        ensures
            r == self.spec_radius(),
            Self::valid(self.spec_center(), r),
    {
        proof {
            use_type_invariant(self);
        }
        self.radius
    }

    #[verifier::when_used_as_spec(spec_material)]
    pub fn material(&self) -> (r: Material)
        ensures
            r == self.spec_material(),
    {
        self.material
    }

    /// The hit test of one sphere.
    ///
    /// Where the ray hits within `[t_min, t_max]`, the record takes the
    /// parameter of the hit and the sphere's material, and the answer is
    /// `true`. Point and normal follow from the parameter by arithmetic and
    /// are the caller's to fill in. Where the ray does not hit, or the
    /// crossing is not that of a proper ray, the record stays as it was.
    pub fn hit(&self, crossing: &Crossing, t_min: Scalar, t_max: Scalar, rec: &mut HitRecord) -> (r:
        Result<bool, GeometryError>)
        ensures
            r is Ok <==> crossing.wf(),
            r is Err ==> r.unwrap_err() == GeometryError::InvalidRay && *final(rec) == *old(rec),
            r is Ok ==> r.unwrap() == (crossing.root_in(t_min, t_max) is Some),
            r == Ok::<bool, GeometryError>(false) ==> *final(rec) == *old(rec),
            r == Ok::<bool, GeometryError>(true) ==> *final(rec) == (HitRecord {
                t: crossing.root_in(t_min, t_max).unwrap(),
                material: self.spec_material(),
                ..*old(rec)
            }),
    {
        match crossing.hit(t_min, t_max) {
            Err(e) => Err(e),
            Ok(None) => Ok(false),
            Ok(Some(root)) => {
                rec.t = root;
                rec.material = self.material;
                Ok(true)
            },
        }
    }
}

/// The scene: the spheres that a ray may hit, in the order in which they were
/// added. The order is of no account to the closest hit.
#[derive(Debug)]
pub struct HittableList {
    objects: Vec<Sphere>,
}

impl View for HittableList {
    type V = Seq<Sphere>;

    closed spec fn view(&self) -> Seq<Sphere> {
        self.objects@
    }
}

impl HittableList {
    /// Every crossing is that of a proper ray.
    pub open spec fn proper(crossings: Seq<Crossing>) -> bool {
        forall|j: int| 0 <= j < crossings.len() ==> (#[trigger] crossings[j]).wf()
    }

    /// None of the first `n` spheres is hit within `[t_min, t_max]`.
    pub open spec fn none_among(crossings: Seq<Crossing>, n: int, t_min: Scalar, t_max: Scalar) -> bool {
        forall|j: int| 0 <= j < n ==> (#[trigger] crossings[j]).root_in(t_min, t_max) is None
    }

    /// Of the first `n` spheres, each tested alone within `[t_min, t_max]`,
    /// sphere `i` is hit, at `t`, and no other is hit earlier. Of several that
    /// are hit at the same distance, `i` is the last.
    pub open spec fn closest_among(
        crossings: Seq<Crossing>,
        n: int,
        t_min: Scalar,
        t_max: Scalar,
        i: int,
        t: Scalar,
    ) -> bool {
        &&& 0 <= i < n
        &&& crossings[i].root_in(t_min, t_max) == Some(t)
        &&& forall|j: int|
            0 <= j < n ==> match (#[trigger] crossings[j]).root_in(t_min, t_max) {
                Some(u) => if j > i {
                    t.spec_lt(u)
                } else {
                    t.spec_le(u)
                },
                None => true,
            }
    }

    /// No sphere is hit within `[t_min, t_max]`.
    pub open spec fn no_hit(crossings: Seq<Crossing>, t_min: Scalar, t_max: Scalar) -> bool {
        Self::none_among(crossings, crossings.len() as int, t_min, t_max)
    }

    /// Sphere `i` is the closest hit within `[t_min, t_max]`, at `t`.
    pub open spec fn is_closest(
        crossings: Seq<Crossing>,
        t_min: Scalar,
        t_max: Scalar,
        i: int,
        t: Scalar,
    ) -> bool {
        Self::closest_among(crossings, crossings.len() as int, t_min, t_max, i, t)
    }

    /// The record of a hit at `t` on a surface of `material`, before point
    /// and normal are worked out.
    pub open spec fn record(t: Scalar, material: Material) -> HitRecord {
        HitRecord { t, material, ..HitRecord::spec_default() }
    }

    /// The scene without a sphere.
    pub fn new() -> (r: Self)
        ensures
            r@ == Seq::<Sphere>::empty(),
    {
        HittableList { objects: Vec::new() }
    }

    /// Takes every sphere out of the scene.
    pub fn clear(&mut self)
        ensures
            final(self)@ == Seq::<Sphere>::empty(),
    {
        self.objects.clear()
    }

    /// Adds a sphere to the scene.
    pub fn add(&mut self, object: Sphere)
        ensures
            final(self)@ == old(self)@.push(object),
    {
        self.objects.push(object)
    }

    /// The number of spheres.
    pub fn len(&self) -> (r: usize)
        ensures
            r == self@.len(),
    {
        self.objects.len()
    }

    /// The sphere that was added as number `index`, counting from zero.
    pub fn get(&self, index: usize) -> (r: Option<Sphere>)
        ensures
            r == if index < self@.len() {
                Some(self@[index as int])
            } else {
                None
            },
    {
        if index < self.objects.len() {
            Some(self.objects[index])
        } else {
            None
        }
    }

    /// The hit test of the whole scene: the closest hit of any sphere.
    ///
    /// `crossings` holds, sphere by sphere, how the ray crosses it. Where they
    /// are not as many as the spheres, or one of them is not that of a proper
    /// ray, the answer is an error and the record stays as it was. Where no
    /// sphere is hit within `[t_min, t_max]`, the answer is `None` and the
    /// record stays as it was. Else the answer is the number of the sphere
    /// that is hit first, and the record is a fresh one with the parameter of
    /// that hit and the material of that sphere.
    ///
    /// Each sphere is tested against the closest hit so far, not against
    /// `t_max`, so that the answer is the closest hit of all and not the
    /// first or the last that was found.
    pub fn hit(
        &self,
        crossings: &Vec<Crossing>,
        t_min: Scalar,
        t_max: Scalar,
        rec: &mut HitRecord,
    ) -> (r: Result<Option<usize>, GeometryError>)
        ensures
            r is Ok <==> crossings@.len() == self@.len() && Self::proper(crossings@),
            r is Err ==> r.unwrap_err() == GeometryError::InvalidRay && *final(rec) == *old(rec),
            r is Ok ==> (r.unwrap() is None <==> Self::no_hit(crossings@, t_min, t_max)),
            r is Ok && r.unwrap() is None ==> *final(rec) == *old(rec),
            r is Ok && r.unwrap() is Some ==> {
                let i = r.unwrap().unwrap() as int;
                &&& Self::is_closest(crossings@, t_min, t_max, i, final(rec).t)
                &&& *final(rec) == Self::record(final(rec).t, self@[i].spec_material())
            },
    {
        let n = self.objects.len();
        if crossings.len() != n {
            return Err(GeometryError::InvalidRay);
        }
        let mut temp_rec = HitRecord::default();
        let mut found: Option<usize> = None;
        let mut closest_so_far = t_max;
        let mut i: usize = 0;
        while i < n
            invariant
                n == self.objects@.len(),
                n == crossings@.len(),
                i <= n,
                forall|j: int| 0 <= j < i ==> (#[trigger] crossings@[j]).wf(),
                match found {
                    None => {
                        &&& closest_so_far == t_max
                        &&& Self::none_among(crossings@, i as int, t_min, t_max)
                        &&& temp_rec == HitRecord::spec_default()
                    },
                    Some(b) => {
                        &&& Self::closest_among(
                            crossings@,
                            i as int,
                            t_min,
                            t_max,
                            b as int,
                            closest_so_far,
                        )
                        &&& temp_rec == Self::record(
                            closest_so_far,
                            self.objects@[b as int].spec_material(),
                        )
                    },
                },
            decreases n - i,
        {
            let ghost bound = closest_so_far;
            let tested = self.objects[i].hit(&crossings[i], t_min, closest_so_far, &mut temp_rec);
            match tested {
                Err(e) => {
                    return Err(e);
                },
                Ok(true) => {
                    found = Some(i);
                    closest_so_far = temp_rec.t;
                },
                Ok(false) => {},
            }
            proof {
                if bound != t_max {
                    crossings@[i as int].lemma_tighten(t_min, bound, t_max);
                }
            }
            i += 1;
        }
        match found {
            Some(b) => {
                *rec = temp_rec;
                Ok(Some(b))
            },
            None => Ok(None),
        }
    }

    /// The closest hit is one hit and no other: whatever is the closest hit
    /// of a scene is the same sphere at the same parameter.
    pub proof fn lemma_closest_is_unique(
        crossings: Seq<Crossing>,
        t_min: Scalar,
        t_max: Scalar,
        i: int,
        t: Scalar,
        j: int,
        u: Scalar,
    )
        requires
            Self::is_closest(crossings, t_min, t_max, i, t),
            Self::is_closest(crossings, t_min, t_max, j, u),
        ensures
            i == j,
            t == u,
            !Self::no_hit(crossings, t_min, t_max),
    {
        assert(crossings[i].root_in(t_min, t_max) is Some);
        assert(crossings[j].root_in(t_min, t_max) is Some);
    }

    /// A scene without spheres is never hit.
    pub proof fn lemma_empty_scene_has_no_hit(t_min: Scalar, t_max: Scalar)
        ensures
            Self::no_hit(Seq::<Crossing>::empty(), t_min, t_max),
            Self::proper(Seq::<Crossing>::empty()),
    {
    }

    /// The order in which the spheres were added does not change the closest
    /// hit.
    ///
    /// Take two scenes that hold the same spheres, crossed by the ray in the
    /// same way, in any two orders. If the one is not hit, neither is the
    /// other. If both are hit, they are hit at the same distance; and unless
    /// two spheres of the scene are hit at that very distance, they are hit
    /// on the same sphere, at the same parameter bit for bit.
    pub proof fn lemma_order_is_irrelevant(
        first: Seq<Sphere>,
        first_crossings: Seq<Crossing>,
        second: Seq<Sphere>,
        second_crossings: Seq<Crossing>,
        t_min: Scalar,
        t_max: Scalar,
    )
        requires
            first.len() == first_crossings.len(),
            second.len() == second_crossings.len(),
            first.zip_with(first_crossings).to_multiset() == second.zip_with(
                second_crossings,
            ).to_multiset(),
        ensures
            Self::no_hit(first_crossings, t_min, t_max) <==> Self::no_hit(
                second_crossings,
                t_min,
                t_max,
            ),
            forall|i: int, t: Scalar, j: int, u: Scalar|
                Self::is_closest(first_crossings, t_min, t_max, i, t) && Self::is_closest(
                    second_crossings,
                    t_min,
                    t_max,
                    j,
                    u,
                ) ==> {
                    &&& t.spec_same(u)
                    &&& Self::is_sole(first_crossings, t_min, t_max, i, t) ==> first[i]
                        == second[j] && t == u
                },
    {
        if Self::no_hit(first_crossings, t_min, t_max) {
            assert forall|j: int| 0 <= j < second_crossings.len() implies (
            #[trigger] second_crossings[j]).root_in(t_min, t_max) is None by {
                let m = Self::lemma_same_member(
                    second,
                    second_crossings,
                    first,
                    first_crossings,
                    j,
                );
                assert(first_crossings[m].root_in(t_min, t_max) is None);
            }
        }
        if Self::no_hit(second_crossings, t_min, t_max) {
            assert forall|i: int| 0 <= i < first_crossings.len() implies (
            #[trigger] first_crossings[i]).root_in(t_min, t_max) is None by {
                let k = Self::lemma_same_member(
                    first,
                    first_crossings,
                    second,
                    second_crossings,
                    i,
                );
                assert(second_crossings[k].root_in(t_min, t_max) is None);
            }
        }
        assert forall|i: int, t: Scalar, j: int, u: Scalar|
            Self::is_closest(first_crossings, t_min, t_max, i, t) && Self::is_closest(
                second_crossings,
                t_min,
                t_max,
                j,
                u,
            ) implies {
            &&& t.spec_same(u)
            &&& Self::is_sole(first_crossings, t_min, t_max, i, t) ==> first[i] == second[j] && t
                == u
        } by {
            let k = Self::lemma_same_member(first, first_crossings, second, second_crossings, i);
            let m = Self::lemma_same_member(second, second_crossings, first, first_crossings, j);
            assert(second_crossings[k].root_in(t_min, t_max) == Some(t));
            assert(first_crossings[m].root_in(t_min, t_max) == Some(u));
            assert(u.spec_le(t));
            assert(t.spec_le(u));
        }
    }

    /// Sphere `i` is hit at `t`, and every other sphere that is hit is hit
    /// farther away.
    pub open spec fn is_sole(
        crossings: Seq<Crossing>,
        t_min: Scalar,
        t_max: Scalar,
        i: int,
        t: Scalar,
    ) -> bool {
        &&& 0 <= i < crossings.len()
        &&& crossings[i].root_in(t_min, t_max) == Some(t)
        &&& forall|j: int|
            0 <= j < crossings.len() && j != i ==> match (#[trigger] crossings[j]).root_in(
                t_min,
                t_max,
            ) {
                Some(u) => t.spec_lt(u),
                None => true,
            }
    }

    /// The sphere `object`, crossed as `crossing` says, stands at place `k` of
    /// the scene.
    pub open spec fn stands_at(
        objects: Seq<Sphere>,
        crossings: Seq<Crossing>,
        k: int,
        object: Sphere,
        crossing: Crossing,
    ) -> bool {
        0 <= k < objects.len() && objects[k] == object && crossings[k] == crossing
    }

    /// Sphere `i` of the first scene, with its crossing, stands somewhere in
    /// the second.
    proof fn lemma_same_member(
        first: Seq<Sphere>,
        first_crossings: Seq<Crossing>,
        second: Seq<Sphere>,
        second_crossings: Seq<Crossing>,
        i: int,
    ) -> (k: int)
        requires
            first.len() == first_crossings.len(),
            second.len() == second_crossings.len(),
            first.zip_with(first_crossings).to_multiset() == second.zip_with(
                second_crossings,
            ).to_multiset(),
            0 <= i < first.len(),
        ensures
            Self::stands_at(second, second_crossings, k, first[i], first_crossings[i]),
    {
        let a = first.zip_with(first_crossings);
        let b = second.zip_with(second_crossings);
        a.to_multiset_ensures();
        b.to_multiset_ensures();
        assert(a[i] == (first[i], first_crossings[i]));
        assert(a.contains(a[i]));
        assert(a.to_multiset().count(a[i]) > 0);
        assert(b.to_multiset().count(a[i]) > 0);
        assert(b.contains(a[i]));
        let k = choose|k: int| 0 <= k < b.len() && b[k] == a[i];
        assert(b[k] == (second[k], second_crossings[k]));
        k
    }
}

} // verus!
