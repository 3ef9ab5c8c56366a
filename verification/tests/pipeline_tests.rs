use raytracer::camera::{Camera, Radiance, Viewport};
use raytracer::color::Color;
use raytracer::hittable::{Crossing, HitRecord, HittableList, Sphere, SphereProbe};
use raytracer::material::{Material, ScatterProbe};
use raytracer::ray::Ray;
use raytracer::scalar::Scalar;
use raytracer::vector::Vector;

// The arithmetic of a renderer, with its random numbers fixed: every pixel
// is sampled at its centre, and every random unit vector is `unit_draw`.

#[derive(Clone, Copy, Debug, PartialEq)]
struct F3(f64, f64, f64);

fn pat(x: f64) -> Scalar {
    Scalar::from_bits(x.to_bits())
}

fn plain(s: Scalar) -> f64 {
    f64::from_bits(s.to_bits())
}

fn lib(a: F3) -> Vector {
    Vector::new(pat(a.0), pat(a.1), pat(a.2))
}

fn own(a: Vector) -> F3 {
    F3(plain(a.x()), plain(a.y()), plain(a.z()))
}

fn plus(a: F3, b: F3) -> F3 {
    F3(a.0 + b.0, a.1 + b.1, a.2 + b.2)
}

fn minus(a: F3, b: F3) -> F3 {
    F3(a.0 - b.0, a.1 - b.1, a.2 - b.2)
}

fn times(a: F3, k: f64) -> F3 {
    F3(a.0 * k, a.1 * k, a.2 * k)
}

fn over(a: F3, k: f64) -> F3 {
    times(a, 1.0 / k)
}

fn each(a: F3, b: F3) -> F3 {
    F3(a.0 * b.0, a.1 * b.1, a.2 * b.2)
}

fn inner(a: F3, b: F3) -> f64 {
    a.0 * b.0 + a.1 * b.1 + a.2 * b.2
}

fn outer(l: F3, r: F3) -> F3 {
    F3(l.1 * r.2 - l.2 * r.1, l.2 * r.0 - l.0 * r.2, l.0 * r.1 - l.1 * r.0)
}

fn normal(a: F3) -> F3 {
    over(a, inner(a, a).sqrt())
}

fn radians(degree: f64) -> f64 {
    degree * 3.1415926535897932385 / 180.0
}

fn set_up(cam: &mut Camera) {
    let rows = pat(cam.image_width as f64 / plain(cam.aspect_ratio));
    let image_height = Camera::image_height_for(rows);
    let lookfrom = own(cam.lookfrom);
    let focus_dist = plain(cam.focus_dist);
    let h = (radians(plain(cam.vfov)) / 2.0).tan();
    let viewport_height = 2.0 * h * focus_dist;
    let viewport_width = viewport_height * (cam.image_width as f64 / image_height as f64);
    let w = normal(minus(lookfrom, own(cam.lookat)));
    let u = normal(outer(own(cam.vup), w));
    let v = outer(w, u);
    let viewport_u = times(u, viewport_width);
    let viewport_v = times(own(lib(v).neg()), viewport_height);
    let pixel_delta_u = over(viewport_u, cam.image_width as f64);
    let pixel_delta_v = over(viewport_v, image_height as f64);
    let upper_left =
        minus(minus(minus(lookfrom, times(w, focus_dist)), over(viewport_v, 2.0)), over(viewport_u, 2.0));
    let pixel00_loc = plus(upper_left, times(plus(pixel_delta_u, pixel_delta_v), 0.5));
    let defocus_radius = focus_dist * radians(plain(cam.defocus_angle) / 2.0).tan();
    cam.initialize(
        rows,
        Viewport {
            pixel_samples_scale: pat(1.0 / cam.samples_per_pixel as f64),
            pixel00_loc: lib(pixel00_loc),
            pixel_delta_u: lib(pixel_delta_u),
            pixel_delta_v: lib(pixel_delta_v),
            u: lib(u),
            v: lib(v),
            w: lib(w),
            defocus_disk_u: lib(times(u, defocus_radius)),
            defocus_disk_v: lib(times(v, defocus_radius)),
        },
    );
}

fn crossing_of(r: &Ray, sphere: &Sphere, t: f64) -> Crossing {
    let p = plus(own(r.origin()), times(own(r.direction()), t));
    let outward = over(minus(p, own(sphere.center)), plain(sphere.radius));
    Crossing { t: pat(t), p: lib(p), outward_normal: lib(outward), along_ray: pat(inner(own(r.direction()), outward)) }
}

fn probe_sphere(r: &Ray, sphere: &Sphere) -> SphereProbe {
    let oc = minus(own(sphere.center), own(r.origin()));
    let a = inner(own(r.direction()), own(r.direction()));
    let h = inner(own(r.direction()), oc);
    let c = inner(oc, oc) - plain(sphere.radius) * plain(sphere.radius);
    let discriminant = h * h - a * c;
    let root = discriminant.sqrt();
    SphereProbe {
        discriminant: pat(discriminant),
        near: crossing_of(r, sphere, (h - root) / a),
        far: crossing_of(r, sphere, (h + root) / a),
    }
}

fn probe_surface(r: &Ray, rec: &HitRecord, unit_draw: F3) -> ScatterProbe {
    let n = own(rec.normal);
    match rec.material {
        None | Some(Material::Lambertian { .. }) => ScatterProbe::Diffuse { direction: lib(plus(n, unit_draw)) },
        Some(Material::Metal { fuzz, .. }) => {
            let d = normal(own(r.direction()));
            let mirrored = minus(d, times(n, 2.0 * inner(d, n)));
            let direction = plus(mirrored, times(unit_draw, plain(fuzz)));
            ScatterProbe::Mirror { direction: lib(direction), along_normal: pat(inner(direction, n)) }
        }
        Some(Material::Dielectric { .. }) => panic!("no glass in these scenes"),
    }
}

fn sky_of(r: &Ray) -> F3 {
    let a = 0.5 * (normal(own(r.direction())).1 + 1.0);
    plus(times(F3(1.0, 1.0, 1.0), 1.0 - a), times(F3(0.5, 0.7, 1.0), a))
}

fn colour_of(r: Ray, depth: u32, world: &HittableList, unit_draw: F3) -> F3 {
    let mut probes = Vec::new();
    for i in 0..world.len() {
        probes.push(probe_sphere(&r, &world.get(i)));
    }
    let hit = Camera::first_hit(world, &probes).map(|rec| (rec, probe_surface(&r, &rec, unit_draw)));
    match Camera::ray_color(r, depth, hit) {
        Radiance::Black => F3(0.0, 0.0, 0.0),
        Radiance::Sky { ray } => sky_of(&ray),
        Radiance::Attenuated { attenuation, ray, depth } => {
            each(own(attenuation), colour_of(ray, depth, world, unit_draw))
        }
    }
}

fn image(cam: &Camera, world: &HittableList, unit_draw: F3) -> String {
    let viewport = cam.viewport.unwrap();
    let mut pixels: Vec<Color> = Vec::new();
    for k in 0..cam.pixel_count() {
        let (i, j) = cam.pixel_at(k);
        let mut sum = F3(0.0, 0.0, 0.0);
        for _ in 0..cam.samples_per_pixel {
            let sample = plus(
                plus(own(viewport.pixel00_loc), times(own(viewport.pixel_delta_u), i as f64 + 0.0)),
                times(own(viewport.pixel_delta_v), j as f64 + 0.0),
            );
            let r = cam.get_ray(lib(minus(sample, own(cam.center))), cam.center);
            sum = plus(sum, colour_of(r, cam.max_depth, world, unit_draw));
        }
        let mean = times(sum, plain(viewport.pixel_samples_scale));
        pixels.push(lib(F3(mean.0.sqrt(), mean.1.sqrt(), mean.2.sqrt())));
    }
    String::from_utf8(cam.render(&pixels)).unwrap()
}

fn one_grey_sphere() -> HittableList {
    let mut world = HittableList::new();
    let grey = Material::lambertian(lib(F3(0.5, 0.5, 0.5)));
    world.add(Sphere::new(lib(F3(0.0, 0.0, -1.0)), pat(0.5), Some(grey)));
    world
}

#[test]
fn sphere_in_front_of_the_camera_with_one_step() {
    let mut cam = Camera::new(pat(1.0), 3, 1, pat(90.0));
    cam.max_depth = 1;
    set_up(&mut cam);
    let expected = "P3\n3 3\n255\n\
                    202 225 255\n200 224 255\n202 225 255\n\
                    221 236 255\n0 0 0\n221 236 255\n\
                    238 245 255\n241 247 255\n238 245 255\n";
    assert_eq!(image(&cam, &one_grey_sphere(), F3(0.0, 1.0, 0.0)), expected);
}

#[test]
fn sphere_in_front_of_the_camera_with_two_steps() {
    let mut cam = Camera::new(pat(1.0), 3, 1, pat(90.0));
    cam.max_depth = 2;
    set_up(&mut cam);
    let expected = "P3\n3 3\n255\n\
                    202 225 255\n200 224 255\n202 225 255\n\
                    221 236 255\n137 156 181\n221 236 255\n\
                    238 245 255\n241 247 255\n238 245 255\n";
    assert_eq!(image(&cam, &one_grey_sphere(), F3(0.0, 1.0, 0.0)), expected);
}

#[test]
fn sphere_out_of_view_leaves_the_sky() {
    let mut cam = Camera::new(pat(2.0), 4, 1, pat(90.0));
    cam.focus_dist = pat(1.0);
    set_up(&mut cam);
    assert_eq!(cam.image_height, 2);
    let mut world = HittableList::new();
    world.add(Sphere::new(lib(F3(0.0, 0.0, 5.0)), pat(0.5), Some(Material::lambertian(lib(F3(0.5, 0.5, 0.5))))));
    let expected = "P3\n4 2\n255\n\
                    211 230 255\n206 227 255\n206 227 255\n211 230 255\n\
                    231 241 255\n236 244 255\n236 244 255\n231 241 255\n";
    assert_eq!(image(&cam, &world, F3(0.0, 1.0, 0.0)), expected);
    assert_eq!(image(&cam, &HittableList::new(), F3(1.0, 0.0, 0.0)), expected);
}

#[test]
fn sky_is_white_below_and_blue_above() {
    let down = Ray::new(lib(F3(0.0, 0.0, 0.0)), lib(F3(0.0, -2.0, 0.0)));
    let up = Ray::new(lib(F3(0.0, 0.0, 0.0)), lib(F3(0.0, 3.0, 0.0)));
    let level = Ray::new(lib(F3(0.0, 0.0, 0.0)), lib(F3(0.0, 0.0, -1.0)));
    let world = HittableList::new();
    for depth in [1, 7, 50] {
        assert_eq!(colour_of(down, depth, &world, F3(0.0, 1.0, 0.0)), F3(1.0, 1.0, 1.0));
        assert_eq!(colour_of(up, depth, &world, F3(0.0, 1.0, 0.0)), F3(0.5, 0.7, 1.0));
        assert_eq!(colour_of(level, depth, &world, F3(1.0, 0.0, 0.0)), F3(0.75, 0.85, 1.0));
    }
    assert_eq!(colour_of(up, 0, &world, F3(0.0, 1.0, 0.0)), F3(0.0, 0.0, 0.0));
}

#[test]
fn mirror_shows_the_sky_above() {
    // a polished floor below the camera, seen at 45 degrees
    let mut world = HittableList::new();
    let mirror = Material::metal(lib(F3(0.5, 1.0, 0.25)), pat(0.0));
    world.add(Sphere::new(lib(F3(0.0, -1001.0, 0.0)), pat(1000.0), Some(mirror)));
    let r = Ray::new(lib(F3(0.0, 0.0, 0.0)), lib(F3(0.0, -1.0, -1.0)));
    let seen = colour_of(r, 2, &world, F3(0.0, 0.0, 1.0));
    let reflected = Ray::new(lib(F3(0.0, 0.0, 0.0)), lib(F3(0.0, 1.0, -1.0)));
    let sky = sky_of(&reflected);
    assert!((seen.0 - 0.5 * sky.0).abs() < 1e-3);
    assert!((seen.1 - 1.0 * sky.1).abs() < 1e-3);
    assert!((seen.2 - 0.25 * sky.2).abs() < 1e-3);
    // and nothing when no step is left for the reflection
    assert_eq!(colour_of(r, 1, &world, F3(0.0, 0.0, 1.0)), F3(0.0, 0.0, 0.0));
}
