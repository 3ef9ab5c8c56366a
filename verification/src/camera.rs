//! The camera: its configuration, the state derived from it, and the
//! decisions of rendering.
//!
//! A camera is configured, then initialised, then used. Initialising takes
//! the viewport that the caller has computed from the configuration; using
//! the camera means asking it where a ray starts, what becomes of a ray
//! that was followed for one more step, and what the text of the finished
//! image is.

use vstd::prelude::*;
use vstd::arithmetic::div_mod::lemma_fundamental_div_mod;
use vstd::arithmetic::mul::lemma_mul_is_commutative;
use crate::color::{decimal, pixel_line, write_color, write_decimal, Color};
use crate::hittable::{HitRecord, Hittable};
use crate::interval::Interval;
use crate::material::ScatterProbe;
use crate::ray::Ray;
use crate::scalar::{Scalar, INFINITY_BITS};
use crate::vector::{Point, Vector, ONE_BITS};

verus! {

/// The pattern of 0.001: a hit nearer than this to a ray's origin is taken
/// for the surface that the ray has just left, and ignored.
pub const SHADOW_ACNE_BITS: u64 = 0x3f50_624d_d2f1_a9fc;

/// The pattern of 0.7: the grey of a surface that has no material.
pub const BARE_GREY_BITS: u64 = 0x3fe6_6666_6666_6666;

/// The pattern of 10.0.
pub const TEN_BITS: u64 = 0x4024_0000_0000_0000;

/// The pattern of -1.0.
pub const MINUS_ONE_BITS: u64 = 0xbff0_0000_0000_0000;

/// The state that is derived from a configuration by arithmetic.
#[derive(Clone, Copy, Debug, PartialEq, Eq, Structural)]
pub struct Viewport {
    /// One over the number of samples of a pixel.
    pub pixel_samples_scale: Scalar,
    /// Where the centre of the pixel in the upper left corner lies.
    pub pixel00_loc: Point,
    /// From one pixel to the next in its row.
    pub pixel_delta_u: Vector,
    /// From one pixel to the one below it.
    pub pixel_delta_v: Vector,
    /// The camera's frame: `w` against the view, `u` to the right, `v` up.
    pub u: Vector,
    pub v: Vector,
    pub w: Vector,
    /// The radii of the lens, to the right and up.
    pub defocus_disk_u: Vector,
    pub defocus_disk_v: Vector,
}

pub struct Camera {
    pub aspect_ratio: Scalar,
    pub image_width: u32,
    pub max_depth: u32,
    pub vfov: Scalar,
    pub lookfrom: Point,
    pub lookat: Point,
    pub vup: Vector,
    pub defocus_angle: Scalar,
    pub focus_dist: Scalar,
    pub samples_per_pixel: u32,
    /// The number of rows of the image. Derived.
    pub image_height: u32,
    /// The point from which the rays start. Derived.
    pub center: Point,
    /// The rest of the derived state; `None` until the camera is
    /// initialised.
    pub viewport: Option<Viewport>,
}

/// What one step along a ray has found its colour to be.
#[derive(Clone, Copy, Debug, PartialEq, Eq, Structural)]
pub enum Radiance {
    /// No light arrives along the ray.
    Black,
    /// The ray leaves the scene: its colour is that of the sky in its
    /// direction.
    Sky { ray: Ray },
    /// The ray was scattered: its colour is `attenuation` times the colour
    /// of `ray`, which may be followed for `depth` steps more.
    Attenuated { attenuation: Color, ray: Ray, depth: u32 },
}

/// The parameters at which a hit counts: above 0.001, with no upper end.
pub open spec fn visible_range() -> Interval {
    Interval { min: Scalar { bits: SHADOW_ACNE_BITS }, max: Scalar { bits: INFINITY_BITS } }
}

/// The number of rows of an image, from the quotient of its width and its
/// aspect ratio: the quotient's whole part, and one at least.
pub open spec fn image_height_spec(rows: Scalar) -> int {
    if rows.to_u32_spec() < 1 {
        1
    } else {
        rows.to_u32_spec()
    }
}

/// The answer of a surface to a hit. A surface without a material scatters
/// along the candidate, with a grey of 0.7.
pub open spec fn surface_scatter(rec: HitRecord, probe: ScatterProbe) -> Option<(Color, Ray)> {
    match rec.material {
        Some(material) => material.scatter_spec(rec, probe),
        None => match probe {
            ScatterProbe::Diffuse { direction } => Some(
                (
                    Vector {
                        e0: Scalar { bits: BARE_GREY_BITS },
                        e1: Scalar { bits: BARE_GREY_BITS },
                        e2: Scalar { bits: BARE_GREY_BITS },
                    },
                    Ray { origin: rec.p, direction },
                ),
            ),
            _ => None,
        },
    }
}

/// The colour of a ray that may be followed for `depth` steps and met
/// `hit`: black where no step is left; the sky where it met nothing; black
/// where the surface absorbed it; else the attenuated colour of the
/// scattered ray, which has one step less.
pub open spec fn ray_color_spec(r: Ray, depth: u32, hit: Option<(HitRecord, ScatterProbe)>) -> Radiance {
    if depth == 0 {
        Radiance::Black
    } else {
        match hit {
            None => Radiance::Sky { ray: r },
            Some((rec, probe)) => match surface_scatter(rec, probe) {
                None => Radiance::Black,
                Some((attenuation, ray)) => Radiance::Attenuated {
                    attenuation,
                    ray,
                    depth: (depth - 1) as u32,
                },
            },
        }
    }
}

/// The three lines that precede the pixels: the magic token, width and
/// height, and the largest level.
pub open spec fn header_text(width: u32, height: u32) -> Seq<u8> {
    seq![80u8, 51u8, 10u8] + decimal(width as nat) + seq![32u8] + decimal(height as nat)
        + seq![10u8, 50u8, 53u8, 53u8, 10u8]
}

/// The lines of the pixels, in their order.
pub open spec fn body_text(pixels: Seq<Color>) -> Seq<u8>
    decreases pixels.len(),
{
    if pixels.len() == 0 {
        Seq::empty()
    } else {
        body_text(pixels.drop_last()) + pixel_line(pixels.last())
    }
}

impl Camera {
    /// The camera has been initialised.
    pub open spec fn initialized(self) -> bool {
        self.viewport is Some
    }

    /// The two cameras have one configuration.
    pub open spec fn same_configuration(self, other: Camera) -> bool {
        &&& self.aspect_ratio == other.aspect_ratio
        &&& self.image_width == other.image_width
        &&& self.max_depth == other.max_depth
        &&& self.vfov == other.vfov
        &&& self.lookfrom == other.lookfrom
        &&& self.lookat == other.lookat
        &&& self.vup == other.vup
        &&& self.defocus_angle == other.defocus_angle
        &&& self.focus_dist == other.focus_dist
        &&& self.samples_per_pixel == other.samples_per_pixel
    }

    /// A camera at the origin that looks along the negative z axis, with y
    /// up, no lens, and up to ten steps along a ray. It is not initialised.
    pub fn new(aspect_ratio: Scalar, image_width: u32, samples_per_pixel: u32, vfov: Scalar) -> (cam:
        Camera)
        ensures
            cam.aspect_ratio == aspect_ratio,
            cam.image_width == image_width,
            cam.samples_per_pixel == samples_per_pixel,
            cam.vfov == vfov,
            cam.max_depth == 10,
            cam.lookfrom == (Vector {
                e0: Scalar { bits: 0 },
                e1: Scalar { bits: 0 },
                e2: Scalar { bits: 0 },
            }),
            cam.lookat == (Vector {
                e0: Scalar { bits: 0 },
                e1: Scalar { bits: 0 },
                e2: Scalar { bits: MINUS_ONE_BITS },
            }),
            cam.vup == (Vector {
                e0: Scalar { bits: 0 },
                e1: Scalar { bits: ONE_BITS },
                e2: Scalar { bits: 0 },
            }),
            cam.defocus_angle.bits == 0,
            cam.focus_dist.bits == TEN_BITS,
            !cam.initialized(),
            cam.image_height == 1,
            cam.center == cam.lookfrom,
    {
        let zero = Scalar { bits: 0 };
        Camera {
            aspect_ratio,
            image_width,
            max_depth: 10,
            vfov,
            lookfrom: Vector::zero(),
            lookat: Point::new(zero, zero, Scalar { bits: MINUS_ONE_BITS }),
            vup: Vector::new(zero, Scalar { bits: ONE_BITS }, zero),
            defocus_angle: zero,
            focus_dist: Scalar { bits: TEN_BITS },
            samples_per_pixel,
            image_height: 1,
            center: Point::zero(),
            viewport: None,
        }
    }

    /// The number of rows of an image whose width divided by its aspect
    /// ratio is `rows`.
    pub fn image_height_for(rows: Scalar) -> (height: u32)
        ensures
            height == image_height_spec(rows),
            height >= 1,
    {
        let whole: u32 = rows.to_u32();
        if whole < 1 {
            1
        } else {
            whole
        }
    }

    /// Takes the state derived from the present configuration: `rows` is
    /// the image width divided by the aspect ratio, `viewport` the rest.
    ///
    /// The configuration stays as it is. Of the derived state nothing stays:
    /// the rows are counted anew, the rays start from where the camera looks
    /// from, and the viewport is the one given.
    pub fn initialize(&mut self, rows: Scalar, viewport: Viewport)
        ensures
            final(self).same_configuration(*old(self)),
            final(self).initialized(),
            final(self).viewport == Some(viewport),
            final(self).image_height == image_height_spec(rows),
            final(self).center == old(self).lookfrom,
    {
        self.center = self.lookfrom;
        self.image_height = Self::image_height_for(rows);
        self.viewport = Some(viewport);
    }

    /// The ray through a pixel sample: `direction` leads from the centre of
    /// the camera to the sample, `lens_point` is a random point of the
    /// lens. Without a lens (a defocus angle of zero or less) the ray starts
    /// at the centre, else at the lens point.
    pub fn get_ray(&self, direction: Vector, lens_point: Point) -> (r: Ray)
        requires
            self.initialized(),
        ensures
            r.direction == direction,
            r.origin == (if self.defocus_angle.le_spec(Scalar { bits: 0 }) {
                self.center
            } else {
                lens_point
            }),
    {
        let ray_origin = if self.defocus_angle.le(Scalar { bits: 0 }) {
            self.center
        } else {
            lens_point
        };
        Ray::new(ray_origin, direction)
    }

    /// The first hit of a ray on the scene that lies far enough from the
    /// ray's origin to count, given the probe of the ray for the scene.
    pub fn first_hit<T: Hittable>(world: &T, probe: &T::Probe) -> (r: Option<HitRecord>)
        requires
            world.probed_by(probe),
        ensures
            r == world.hit_spec(probe, visible_range()),
            r matches Some(rec) ==> visible_range().surrounds_spec(rec.t),
    {
        world.hit(
            probe,
            Interval::new(Scalar { bits: SHADOW_ACNE_BITS }, Scalar { bits: INFINITY_BITS }),
        )
    }

    /// One step of following a ray: `hit` is the first hit of `r` on the
    /// scene with the probe computed there, or `None` where `r` hits
    /// nothing.
    ///
    /// A ray that hits nothing has the colour of the sky, whatever else
    /// happens, as long as a step is left. The depth of a scattered ray is
    /// one less than that of `r`, so no ray is followed for more than
    /// `depth` steps.
    pub fn ray_color(r: Ray, depth: u32, hit: Option<(HitRecord, ScatterProbe)>) -> (c: Radiance)
        requires
            hit matches Some((rec, probe)) ==> probe.fits(rec.material),
        ensures
            c == ray_color_spec(r, depth, hit),
            depth > 0 && hit is None ==> c == (Radiance::Sky { ray: r }),
            c matches Radiance::Attenuated { depth: left, .. } ==> left + 1 == depth,
    {
        if depth == 0 {
            return Radiance::Black;
        }
        match hit {
            None => Radiance::Sky { ray: r },
            Some((rec, probe)) => {
                let scattered = match rec.material {
                    Some(material) => material.scatter(&rec, &probe),
                    None => match probe {
                        ScatterProbe::Diffuse { direction } => {
                            let grey = Scalar { bits: BARE_GREY_BITS };
                            Some((Vector::new(grey, grey, grey), Ray::new(rec.p, direction)))
                        },
                        _ => None,
                    },
                };
                match scattered {
                    None => Radiance::Black,
                    Some((attenuation, ray)) => Radiance::Attenuated {
                        attenuation,
                        ray,
                        depth: depth - 1,
                    },
                }
            },
        }
    }

    /// The number of pixels of the image.
    pub fn pixel_count(&self) -> (n: u64)
        requires
            self.initialized(),
        ensures
            n == self.image_width * self.image_height,
    {
        assert(self.image_width * self.image_height <= 0xffff_ffff * 0xffff_ffff) by (nonlinear_arith)
            requires
                self.image_width <= 0xffff_ffff,
                self.image_height <= 0xffff_ffff,
        ;
        self.image_width as u64 * self.image_height as u64
    }

    /// The place of the pixel that is rendered as number `k`, counted from
    /// zero: column and row. Pixels are rendered row by row from the top,
    /// each row from the left.
    pub fn pixel_at(&self, k: u64) -> (place: (u32, u32))
        requires
            self.initialized(),
            k < self.image_width * self.image_height,
        ensures
            place.0 < self.image_width,
            place.1 < self.image_height,
            k == place.1 * self.image_width + place.0,
    {
        let width: u64 = self.image_width as u64;
        assert(width > 0) by (nonlinear_arith)
            requires
                k < width * self.image_height,
        ;
        let row: u64 = k / width;
        let column: u64 = k % width;
        proof {
            lemma_fundamental_div_mod(k as int, width as int);
            lemma_mul_is_commutative(width as int, row as int);
        }
        assert(row < self.image_height) by (nonlinear_arith)
            requires
                k < width * self.image_height,
                k == row * width + column,
                0 <= column,
                width > 0,
        ;
        (column as u32, row as u32)
    }

    /// The text of the image: the header, then one line for each pixel.
    /// `pixels` holds the gamma-encoded colours of the pixels in the order
    /// in which they are rendered.
    pub fn render(&self, pixels: &Vec<Color>) -> (text: Vec<u8>)
        requires
            self.initialized(),
            pixels@.len() == self.image_width * self.image_height,
        ensures
            text@ == header_text(self.image_width, self.image_height) + body_text(pixels@),
    {
        let mut text: Vec<u8> = Vec::new();
        text.push(80);
        text.push(51);
        text.push(10);
        write_decimal(&mut text, self.image_width);
        text.push(32);
        write_decimal(&mut text, self.image_height);
        text.push(10);
        text.push(50);
        text.push(53);
        text.push(53);
        text.push(10);
        assert(text@ == header_text(self.image_width, self.image_height));
        let n: usize = pixels.len();
        let mut k: usize = 0;
        while k < n
            invariant
                k <= n,
                n == pixels@.len(),
                text@ == header_text(self.image_width, self.image_height) + body_text(
                    pixels@.subrange(0, k as int),
                ),
            decreases n - k,
        {
            write_color(&mut text, pixels[k]);
            proof {
                let upto = pixels@.subrange(0, k + 1);
                assert(upto.drop_last() == pixels@.subrange(0, k as int));
                assert(upto.last() == pixels@[k as int]);
            }
            k = k + 1;
        }
        assert(pixels@.subrange(0, n as int) == pixels@);
        text
    }
}

} // verus!
