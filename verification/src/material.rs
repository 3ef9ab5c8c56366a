//! Surfaces: what becomes of a ray that hits one.
//!
//! A material answers a hit with an attenuation colour and a scattered ray,
//! or absorbs the ray. The candidate directions are arithmetic on the
//! incoming ray, the normal and random numbers; they come in as a
//! [`ScatterProbe`]. Which candidate is taken, and whether any is, is decided
//! here.

use vstd::prelude::*;
use crate::color::Color;
use crate::hittable::HitRecord;
use crate::ray::Ray;
use crate::scalar::Scalar;
use crate::vector::{Vector, ONE_BITS};

verus! {

#[derive(Clone, Copy, Debug, PartialEq, Eq, Structural)]
pub enum Material {
    /// A matt surface that scatters around the normal.
    Lambertian { albedo: Color },
    /// A mirror, blurred by `fuzz`, which lies between 0 and 1.
    Metal { albedo: Color, fuzz: Scalar },
    /// Glass of refractive index `ior`.
    Dielectric { ior: Scalar },
}

/// What the caller has computed at a hit for the material to choose from.
#[derive(Clone, Copy, Debug, PartialEq, Eq, Structural)]
pub enum ScatterProbe {
    /// For a matt surface: the normal plus a random unit vector.
    Diffuse { direction: Vector },
    /// For a mirror: the reflection of the unit incoming direction about the
    /// normal, plus `fuzz` times a random unit vector; and the dot product
    /// of that with the normal.
    Mirror { direction: Vector, along_normal: Scalar },
    /// For glass: `bend` is the refraction ratio times the sine of the angle
    /// of incidence, `reflectance` the Schlick estimate for that angle and
    /// ratio, `sample` a random number from zero to one; then the incoming
    /// unit direction, once reflected about the normal and once refracted.
    Glass { bend: Scalar, reflectance: Scalar, sample: Scalar, reflected: Vector, refracted: Vector },
}

impl ScatterProbe {
    /// The probe holds what a surface of this material reads. A surface
    /// without a material reads a diffuse direction.
    pub open spec fn fits(self, material: Option<Material>) -> bool {
        match material {
            None => self is Diffuse,
            Some(Material::Lambertian { .. }) => self is Diffuse,
            Some(Material::Metal { .. }) => self is Mirror,
            Some(Material::Dielectric { .. }) => self is Glass,
        }
    }

    /// Whether the probe was made for a surface of this material.
    pub fn is_for(&self, material: &Option<Material>) -> (b: bool)
        ensures
            b == self.fits(*material),
    {
        match (material, self) {
            (None, ScatterProbe::Diffuse { .. }) => true,
            (Some(Material::Lambertian { .. }), ScatterProbe::Diffuse { .. }) => true,
            (Some(Material::Metal { .. }), ScatterProbe::Mirror { .. }) => true,
            (Some(Material::Dielectric { .. }), ScatterProbe::Glass { .. }) => true,
            _ => false,
        }
    }
}

/// Glass reflects where Snell's law has no solution (`bend` above one) and,
/// by chance, where the reflectance exceeds the sample drawn.
pub open spec fn glass_reflects(bend: Scalar, reflectance: Scalar, sample: Scalar) -> bool {
    bend.gt_spec(Scalar { bits: ONE_BITS }) || reflectance.gt_spec(sample)
}

/// The ratio of refractive indices that a ray meets: into the glass (a hit
/// on the front face) the inverse of the index, out of it the index.
pub fn refraction_ratio(ior: Scalar, ior_inverse: Scalar, front_face: bool) -> (r: Scalar)
    ensures
        r == (if front_face {
            ior_inverse
        } else {
            ior
        }),
{
    if front_face {
        ior_inverse
    } else {
        ior
    }
}

impl Material {
    /// The parameters are in the ranges the model allows.
    pub open spec fn wf(self) -> bool {
        match self {
            Material::Metal { fuzz, .. } => (Scalar { bits: 0 }).le_spec(fuzz) && fuzz.le_spec(
                Scalar { bits: ONE_BITS },
            ),
            _ => true,
        }
    }

    /// The answer of this material to a hit: `None` where the ray is
    /// absorbed, else the attenuation and the ray that leaves the hit point.
    pub open spec fn scatter_spec(self, rec: HitRecord, probe: ScatterProbe) -> Option<(Color, Ray)> {
        match (self, probe) {
            (Material::Lambertian { albedo }, ScatterProbe::Diffuse { direction }) => Some(
                (
                    albedo,
                    Ray {
                        origin: rec.p,
                        direction: if direction.near_zero_spec() {
                            rec.normal
                        } else {
                            direction
                        },
                    },
                ),
            ),
            (Material::Metal { albedo, .. }, ScatterProbe::Mirror { direction, along_normal }) => {
                if along_normal.le_spec(Scalar { bits: 0 }) {
                    None
                } else {
                    Some((albedo, Ray { origin: rec.p, direction }))
                }
            },
            (
                Material::Dielectric { .. },
                ScatterProbe::Glass { bend, reflectance, sample, reflected, refracted },
            ) => Some(
                (
                    Self::white(),
                    Ray {
                        origin: rec.p,
                        direction: if glass_reflects(bend, reflectance, sample) {
                            reflected
                        } else {
                            refracted
                        },
                    },
                ),
            ),
            _ => None,
        }
    }

    /// The colour (1, 1, 1): glass takes nothing away.
    pub open spec fn white() -> Color {
        Vector {
            e0: Scalar { bits: ONE_BITS },
            e1: Scalar { bits: ONE_BITS },
            e2: Scalar { bits: ONE_BITS },
        }
    }

    pub fn lambertian(albedo: Color) -> (m: Material)
        ensures
            m == (Material::Lambertian { albedo }),
            m.wf(),
    {
        Material::Lambertian { albedo }
    }

    pub fn metal(albedo: Color, fuzz: Scalar) -> (m: Material)
        requires
            (Scalar { bits: 0 }).le_spec(fuzz),
            fuzz.le_spec(Scalar { bits: ONE_BITS }),
        ensures
            m == (Material::Metal { albedo, fuzz }),
            m.wf(),
    {
        Material::Metal { albedo, fuzz }
    }

    pub fn dielectric(ior: Scalar) -> (m: Material)
        ensures
            m == (Material::Dielectric { ior }),
            m.wf(),
    {
        Material::Dielectric { ior }
    }

    /// Scatters or absorbs the ray that produced `rec`.
    ///
    /// A matt surface always scatters, with its albedo: along the candidate,
    /// or along the normal where the candidate is too short to be a
    /// direction. A mirror scatters along the candidate with its albedo
    /// unless the candidate points into the surface, and absorbs then. Glass
    /// always scatters, unattenuated, and reflects or refracts.
    pub fn scatter(&self, rec: &HitRecord, probe: &ScatterProbe) -> (r: Option<(Color, Ray)>)
        requires
            probe.fits(Some(*self)),
        ensures
            r == self.scatter_spec(*rec, *probe),
            r matches Some(out) ==> out.1.origin == rec.p,
            *self matches Material::Lambertian { albedo } ==> (r matches Some(out) && out.0 == albedo),
            *self matches Material::Metal { albedo, .. } ==> (*probe matches ScatterProbe::Mirror {
                direction,
                along_normal,
            } ==> (if along_normal.le_spec(Scalar { bits: 0 }) {
                r is None
            } else {
                r matches Some(out) && out.0 == albedo && out.1.direction == direction
            })),
            self is Dielectric ==> (*probe matches ScatterProbe::Glass {
                bend,
                reflectance,
                sample,
                reflected,
                refracted,
            } ==> (r matches Some(out) && out.0 == Self::white() && out.1.direction == (if bend.gt_spec(
                Scalar { bits: ONE_BITS },
            ) || reflectance.gt_spec(sample) {
                reflected
            } else {
                refracted
            }))),
    {
        match (*self, *probe) {
            (Material::Lambertian { albedo }, ScatterProbe::Diffuse { direction }) => {
                let kept = if direction.near_zero() {
                    rec.normal
                } else {
                    direction
                };
                Some((albedo, Ray::new(rec.p, kept)))
            },
            (Material::Metal { albedo, .. }, ScatterProbe::Mirror { direction, along_normal }) => {
                if along_normal.le(Scalar { bits: 0 }) {
                    None
                } else {
                    Some((albedo, Ray::new(rec.p, direction)))
                }
            },
            (
                Material::Dielectric { .. },
                ScatterProbe::Glass { bend, reflectance, sample, reflected, refracted },
            ) => {
                let one = Scalar { bits: ONE_BITS };
                let kept = if bend.gt(one) || reflectance.gt(sample) {
                    reflected
                } else {
                    refracted
                };
                Some((Vector::new(one, one, one), Ray::new(rec.p, kept)))
            },
            _ => None,
        }
    }
}

} // verus!
