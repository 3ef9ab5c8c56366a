//! The scene: spheres, and the query that finds where a ray meets them
//! first.
//!
//! Where a ray crosses a sphere is the solution of a quadratic, which the
//! caller computes and hands in as a [`SphereProbe`]. Which crossing counts,
//! how the normal is turned, and which of many spheres is hit first is
//! decided here.

use vstd::prelude::*;
use crate::interval::Interval;
use crate::material::Material;
use crate::scalar::Scalar;
use crate::vector::{Point, Vector};

verus! {

/// What is known of the place where a ray met a surface.
#[derive(Clone, Copy, Debug, PartialEq, Eq, Structural)]
pub struct HitRecord {
    /// The point that was hit.
    pub p: Point,
    /// The unit normal there, turned against the incoming ray.
    pub normal: Vector,
    pub material: Option<Material>,
    /// The ray parameter of the hit.
    pub t: Scalar,
    /// The ray came from outside the surface.
    pub front_face: bool,
}

impl HitRecord {
    pub fn new() -> (rec: HitRecord)
        ensures
            rec.p == (Vector { e0: Scalar { bits: 0 }, e1: Scalar { bits: 0 }, e2: Scalar { bits: 0 } }),
            rec.normal == rec.p,
            rec.material is None,
            rec.t.bits == 0,
            !rec.front_face,
    {
        HitRecord {
            p: Point::zero(),
            normal: Vector::zero(),
            material: None,
            t: Scalar { bits: 0 },
            front_face: false,
        }
    }

    /// Records on which side the ray arrived and turns the normal against
    /// it. `along_ray` is the dot product of the ray's direction with
    /// `outward_normal`: negative where the ray comes from outside.
    pub fn set_face_normal(&mut self, along_ray: Scalar, outward_normal: Vector)
        ensures
            final(self).front_face == along_ray.lt_spec(Scalar { bits: 0 }),
            final(self).normal == (if along_ray.lt_spec(Scalar { bits: 0 }) {
                outward_normal
            } else {
                outward_normal.neg_spec()
            }),
            final(self).p == old(self).p,
            final(self).t == old(self).t,
            final(self).material == old(self).material,
    {
        let front_face = along_ray.lt(Scalar { bits: 0 });
        self.front_face = front_face;
        if front_face {
            self.normal = outward_normal;
        } else {
            self.normal = outward_normal.neg();
        }
    }
}

/// One of the two places where a ray's line crosses a sphere.
#[derive(Clone, Copy, Debug, PartialEq, Eq, Structural)]
pub struct Crossing {
    /// The ray parameter of the crossing.
    pub t: Scalar,
    /// The point `origin + t * direction`.
    pub p: Point,
    /// `(p - center) / radius`.
    pub outward_normal: Vector,
    /// The dot product of the ray's direction with `outward_normal`.
    pub along_ray: Scalar,
}

/// The quadratic of a ray and a sphere, solved: with `oc` from the ray's
/// origin to the centre, `a` the squared length of the direction, `h` the
/// dot product of direction and `oc`, and `c` the squared length of `oc`
/// less the squared radius, the discriminant is `h * h - a * c` and the
/// crossings lie at `(h - sqrt(discriminant)) / a` and
/// `(h + sqrt(discriminant)) / a`.
#[derive(Clone, Copy, Debug, PartialEq, Eq, Structural)]
pub struct SphereProbe {
    pub discriminant: Scalar,
    pub near: Crossing,
    pub far: Crossing,
}

impl SphereProbe {
    /// The far crossing does not lie before the near one.
    pub open spec fn ordered(self) -> bool {
        !self.far.t.lt_spec(self.near.t)
    }
}

/// What a ray can hit. The arithmetic of the ray and the object is done by
/// the caller and comes as a probe; the object decides on it.
pub trait Hittable {
    /// What the caller computes of a ray for an object of this kind.
    type Probe;

    /// The probe has the shape that this object reads.
    spec fn probed_by(&self, probe: &Self::Probe) -> bool;

    /// The hit of the probed ray on this object within `ray_t`.
    spec fn hit_spec(&self, probe: &Self::Probe, ray_t: Interval) -> Option<HitRecord>;

    /// Where the ray that `probe` was computed for hits this object within
    /// `ray_t`, if it does. A hit lies strictly inside `ray_t`.
    fn hit(&self, probe: &Self::Probe, ray_t: Interval) -> (r: Option<HitRecord>)
        requires
            self.probed_by(probe),
        ensures
            r == self.hit_spec(probe, ray_t),
            r matches Some(rec) ==> ray_t.surrounds_spec(rec.t),
    ;
}

#[derive(Clone, Copy, Debug, PartialEq, Eq, Structural)]
pub struct Sphere {
    pub center: Point,
    pub radius: Scalar,
    pub material: Option<Material>,
}

impl Sphere {
    /// The record of a hit of this sphere at the crossing `c`.
    pub open spec fn record(self, c: Crossing) -> HitRecord {
        let front_face = c.along_ray.lt_spec(Scalar { bits: 0 });
        HitRecord {
            p: c.p,
            normal: if front_face {
                c.outward_normal
            } else {
                c.outward_normal.neg_spec()
            },
            material: self.material,
            t: c.t,
            front_face,
        }
    }

    /// The hit of a ray on a sphere within `ray_t`: none where the
    /// quadratic has no real root; else at the near crossing where its
    /// parameter lies strictly inside `ray_t`; else at the far one where
    /// that does; else none.
    pub open spec fn crossing_hit(self, probe: SphereProbe, ray_t: Interval) -> Option<HitRecord> {
        if probe.discriminant.lt_spec(Scalar { bits: 0 }) {
            None
        } else if ray_t.surrounds_spec(probe.near.t) {
            Some(self.record(probe.near))
        } else if ray_t.surrounds_spec(probe.far.t) {
            Some(self.record(probe.far))
        } else {
            None
        }
    }

    pub fn new(center: Point, radius: Scalar, material: Option<Material>) -> (s: Sphere)
        ensures
            s == (Sphere { center, radius, material }),
    {
        Sphere { center, radius, material }
    }

    fn record_at(&self, c: &Crossing) -> (rec: HitRecord)
        ensures
            rec == self.record(*c),
    {
        let mut rec = HitRecord::new();
        rec.t = c.t;
        rec.p = c.p;
        rec.set_face_normal(c.along_ray, c.outward_normal);
        rec.material = self.material;
        rec
    }
}

impl Hittable for Sphere {
    type Probe = SphereProbe;

    open spec fn probed_by(&self, probe: &SphereProbe) -> bool {
        true
    }

    open spec fn hit_spec(&self, probe: &SphereProbe, ray_t: Interval) -> Option<HitRecord> {
        self.crossing_hit(*probe, ray_t)
    }

    /// A crossing outside `ray_t` is no hit, whatever the quadratic says: a
    /// hit that is returned lies strictly inside `ray_t`, and none is
    /// returned where neither crossing does.
    fn hit(&self, probe: &SphereProbe, ray_t: Interval) -> (r: Option<HitRecord>)
        ensures
            r matches Some(rec) ==> rec.material == self.material,
            !ray_t.surrounds_spec(probe.near.t) && !ray_t.surrounds_spec(probe.far.t) ==> r is None,
    {
        if probe.discriminant.lt(Scalar { bits: 0 }) {
            return None;
        }
        if ray_t.surrounds(probe.near.t) {
            Some(self.record_at(&probe.near))
        } else if ray_t.surrounds(probe.far.t) {
            Some(self.record_at(&probe.far))
        } else {
            None
        }
    }
}

/// The spheres of a scene, in the order in which they were added.
pub struct HittableList {
    objects: Vec<Sphere>,
}

impl View for HittableList {
    type V = Seq<Sphere>;

    closed spec fn view(&self) -> Seq<Sphere> {
        self.objects@
    }
}

impl HittableList {
    /// The object at `i` is not hit within `ray_t`.
    pub open spec fn misses(
        objects: Seq<Sphere>,
        probes: Seq<SphereProbe>,
        ray_t: Interval,
        i: int,
    ) -> bool {
        objects[i].crossing_hit(probes[i], ray_t) is None
    }

    /// None of the first `n` objects is hit within `ray_t`.
    pub open spec fn all_miss(
        objects: Seq<Sphere>,
        probes: Seq<SphereProbe>,
        ray_t: Interval,
        n: int,
    ) -> bool {
        forall|i: int| 0 <= i < n ==> Self::misses(objects, probes, ray_t, i)
    }

    /// Every probe has its crossings in order.
    pub open spec fn all_ordered(probes: Seq<SphereProbe>) -> bool {
        forall|i: int| 0 <= i < probes.len() ==> (#[trigger] probes[i]).ordered()
    }

    /// The record is that of a crossing of the object at `i`.
    pub open spec fn comes_from(
        objects: Seq<Sphere>,
        probes: Seq<SphereProbe>,
        rec: HitRecord,
        i: int,
    ) -> bool {
        rec == objects[i].record(probes[i].near) || rec == objects[i].record(probes[i].far)
    }

    /// The hit among the first `n` objects: each object in turn is asked
    /// for a hit strictly before the one found so far, and the last one that
    /// answers wins.
    pub open spec fn hit_among(
        objects: Seq<Sphere>,
        probes: Seq<SphereProbe>,
        ray_t: Interval,
        n: nat,
    ) -> Option<HitRecord>
        decreases n,
    {
        if n == 0 {
            None
        } else {
            let before = Self::hit_among(objects, probes, ray_t, (n - 1) as nat);
            let closest = match before {
                Some(rec) => rec.t,
                None => ray_t.max,
            };
            match objects[n - 1].crossing_hit(probes[n - 1], Interval { min: ray_t.min, max: closest }) {
                Some(rec) => Some(rec),
                None => before,
            }
        }
    }

    /// What the scan finds among the first `n` objects. It finds nothing
    /// exactly where none of them is hit within `ray_t`. What it finds is a
    /// crossing of one of them and lies strictly inside `ray_t`; and where
    /// each probe has its crossings in order, it is the nearest hit: none of
    /// the objects is hit strictly before it.
    pub proof fn lemma_hit_among(objects: Seq<Sphere>, probes: Seq<SphereProbe>, ray_t: Interval, n: nat)
        requires
            n <= objects.len(),
            n <= probes.len(),
        ensures
            match Self::hit_among(objects, probes, ray_t, n) {
                None => Self::all_miss(objects, probes, ray_t, n as int),
                Some(rec) => {
                    &&& !Self::all_miss(objects, probes, ray_t, n as int)
                    &&& ray_t.surrounds_spec(rec.t)
                    &&& exists|i: int| 0 <= i < n && Self::comes_from(objects, probes, rec, i)
                    &&& Self::all_ordered(probes) ==> Self::all_miss(
                        objects,
                        probes,
                        Interval { min: ray_t.min, max: rec.t },
                        n as int,
                    )
                },
            },
        decreases n,
    {
        if n > 0 {
            let i = (n - 1) as int;
            Self::lemma_hit_among(objects, probes, ray_t, (n - 1) as nat);
            let before = Self::hit_among(objects, probes, ray_t, (n - 1) as nat);
            let cap = match before {
                Some(rec) => rec.t,
                None => ray_t.max,
            };
            let narrow = Interval { min: ray_t.min, max: cap };
            match objects[i].crossing_hit(probes[i], narrow) {
                Some(rec) => {
                    let narrower = Interval { min: ray_t.min, max: rec.t };
                    assert(narrow.surrounds_spec(rec.t));
                    assert(ray_t.surrounds_spec(rec.t));
                    assert(!Self::misses(objects, probes, ray_t, i));
                    assert(Self::comes_from(objects, probes, rec, i));
                    if Self::all_ordered(probes) {
                        assert(probes[i].ordered());
                        assert forall|j: int| 0 <= j < n implies Self::misses(
                            objects,
                            probes,
                            narrower,
                            j,
                        ) by {
                            if j < i {
                                if before is Some {
                                    assert(Self::misses(objects, probes, narrow, j));
                                } else {
                                    assert(Self::misses(objects, probes, ray_t, j));
                                }
                            }
                        }
                    }
                },
                None => {
                    if before is None {
                        assert(narrow == ray_t);
                    } else {
                        assert(Self::misses(objects, probes, narrow, i));
                    }
                },
            }
        }
    }

    pub fn new() -> (list: HittableList)
        ensures
            list@ == Seq::<Sphere>::empty(),
    {
        HittableList { objects: Vec::new() }
    }

    pub fn clear(&mut self)
        ensures
            final(self)@ == Seq::<Sphere>::empty(),
    {
        self.objects.clear();
    }

    pub fn add(&mut self, object: Sphere)
        ensures
            final(self)@ == old(self)@.push(object),
    {
        self.objects.push(object);
    }

    pub fn len(&self) -> (n: usize)
        ensures
            n == self@.len(),
    {
        self.objects.len()
    }

    /// The object at `i`.
    pub fn get(&self, i: usize) -> (s: Sphere)
        requires
            i < self@.len(),
        ensures
            s == self@[i as int],
    {
        self.objects[i]
    }
}

impl Hittable for HittableList {
    type Probe = Vec<SphereProbe>;

    /// One probe for each object, in the objects' order.
    open spec fn probed_by(&self, probes: &Vec<SphereProbe>) -> bool {
        probes@.len() == self@.len()
    }

    open spec fn hit_spec(&self, probes: &Vec<SphereProbe>, ray_t: Interval) -> Option<HitRecord> {
        Self::hit_among(self@, probes@, ray_t, self@.len())
    }

    /// The first hit of a ray on the scene within `ray_t`.
    ///
    /// No hit is returned exactly where no object is hit within `ray_t`. A
    /// hit that is returned belongs to one of the objects and lies strictly
    /// inside `ray_t`; and where each probe has its crossings in order, it
    /// is the nearest: no object is hit strictly before it. Of several
    /// objects hit at the same parameter, the one added first is returned.
    fn hit(&self, probes: &Vec<SphereProbe>, ray_t: Interval) -> (r: Option<HitRecord>)
        ensures
            r is None <==> Self::all_miss(self@, probes@, ray_t, self@.len() as int),
            r matches Some(rec) ==> (exists|i: int|
                0 <= i < self@.len() && Self::comes_from(self@, probes@, rec, i)),
            r matches Some(rec) ==> (Self::all_ordered(probes@) ==> Self::all_miss(
                self@,
                probes@,
                Interval { min: ray_t.min, max: rec.t },
                self@.len() as int,
            )),
    {
        let n: usize = self.objects.len();
        let mut best: Option<HitRecord> = None;
        let mut closest: Scalar = ray_t.max;
        let mut i: usize = 0;
        while i < n
            invariant
                i <= n,
                n == self@.len(),
                n == probes@.len(),
                self@ == self.objects@,
                best == Self::hit_among(self@, probes@, ray_t, i as nat),
                closest == (match best {
                    Some(rec) => rec.t,
                    None => ray_t.max,
                }),
            decreases n - i,
        {
            match self.objects[i].hit(&probes[i], Interval::new(ray_t.min, closest)) {
                Some(rec) => {
                    closest = rec.t;
                    best = Some(rec);
                },
                None => {},
            }
            i = i + 1;
        }
        proof {
            Self::lemma_hit_among(self@, probes@, ray_t, n as nat);
        }
        best
    }
}

} // verus!
