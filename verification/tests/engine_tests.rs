use rand::SeedableRng;
use raytracer::camera::{viewport_width_height, Camera, CameraWithFocus};
use raytracer::fx::{fx_div, FX_ONE};
use raytracer::hittable::{hittable_list, HitRecord, HittableList};
use raytracer::material::{Dielectric, Lambertian, Material, Metal};
use raytracer::ray::Ray;
use raytracer::render::{listing_30_68, listing_69_, listing_9_24, ray_color_49, RenderParams};
use raytracer::rtweekend::{random_unif_1, INF};
use raytracer::sphere::{hit_sphere_10, hit_sphere_11, hit_sphere_12, Sphere};
use raytracer::vec3::{color, point3, vec3_, Vec3};
use raytracer::vec3_img::Rgb8;

fn gray() -> Material {
    Lambertian::new(32768, 32768, 32768)
}

#[test]
fn test_sphere_hit_head_on() {
    // a ray from the origin toward a sphere half a unit deep hits at one half
    let s = Sphere::new(point3(0, 0, -FX_ONE), 32768, gray());
    let ray = Ray::new(&point3(0, 0, 0), &vec3_(0, 0, -FX_ONE));
    let rec = s.hit(&ray, 66, INF).expect("must hit");
    assert_eq!(rec.t, 32768);
    assert!(rec.front_face);
    assert_eq!(rec.p, point3(0, 0, -32768));
    assert_eq!(rec.normal, vec3_(0, 0, FX_ONE));
    assert!(ray.dir.dot(&rec.normal) <= 0);
}

#[test]
fn test_sphere_hit_from_inside() {
    // from the center the normal is flipped to face the ray
    let s = Sphere::new(point3(0, 0, -FX_ONE), 32768, gray());
    let ray = Ray::new(&point3(0, 0, -FX_ONE), &vec3_(0, 0, -FX_ONE));
    let rec = s.hit(&ray, 66, INF).expect("must hit");
    assert_eq!(rec.t, 32768);
    assert!(!rec.front_face);
    assert_eq!(rec.normal, vec3_(0, 0, FX_ONE));
    assert!(ray.dir.dot(&rec.normal) <= 0);
}

#[test]
fn test_sphere_hit_tangent() {
    // a grazing ray: the discriminant degenerates to zero, one root
    let s = Sphere::new(point3(0, 0, -FX_ONE), 32768, gray());
    let ray = Ray::new(&point3(0, 32768, 0), &vec3_(0, 0, -FX_ONE));
    let rec = s.hit(&ray, 66, INF).expect("tangent ray still hits");
    assert_eq!(rec.t, FX_ONE);
    assert!(ray.dir.dot(&rec.normal) <= 0);
}

#[test]
fn test_sphere_miss() {
    let s = Sphere::new(point3(0, 0, -FX_ONE), 32768, gray());
    let away = Ray::new(&point3(0, 0, 0), &vec3_(0, 0, FX_ONE));
    assert!(s.hit(&away, 66, INF).is_none());
    let wide = Ray::new(&point3(0, 0, 0), &vec3_(FX_ONE, 0, 0));
    assert!(s.hit(&wide, 66, INF).is_none());
}

#[test]
fn test_list_hit_picks_closest() {
    let near_mat = Lambertian::new(FX_ONE, 0, 0);
    let far_mat = Lambertian::new(0, FX_ONE, 0);
    let mut objects: Vec<Sphere> = Vec::new();
    // deliberately listed far sphere first
    objects.push(Sphere::new(point3(0, 0, -4 * FX_ONE), 32768, far_mat));
    objects.push(Sphere::new(point3(0, 0, -2 * FX_ONE), 32768, near_mat));
    let world = hittable_list(&objects);
    let ray = Ray::new(&point3(0, 0, 0), &vec3_(0, 0, -FX_ONE));
    let rec = world.hit(&ray, 66, INF).expect("must hit");
    assert_eq!(rec.material, near_mat);
    assert!(ray.dir.dot(&rec.normal) <= 0);
}

#[test]
fn test_hit_sphere_flat_forms() {
    let center = point3(0, 0, -FX_ONE);
    let ray = Ray::new(&point3(0, 0, 0), &vec3_(0, 0, -FX_ONE));
    assert!(hit_sphere_10(&center, 32768, &ray));
    assert_eq!(hit_sphere_11(&center, 32768, &ray), 32768);
    assert_eq!(hit_sphere_12(&center, 32768, &ray), 32768);
    // these early forms test the infinite line: a ray aimed away still sees
    // the intersection behind it, at a negative parameter
    let away = Ray::new(&point3(0, 0, 0), &vec3_(0, 0, FX_ONE));
    assert!(hit_sphere_10(&center, 32768, &away));
    assert_eq!(hit_sphere_11(&center, 32768, &away), -98304);
    assert_eq!(hit_sphere_12(&center, 32768, &away), -98304);
    // a line that clears the sphere reports no hit at all
    let wide = Ray::new(&point3(0, 0, 0), &vec3_(FX_ONE, 0, 0));
    assert!(!hit_sphere_10(&center, 32768, &wide));
    assert_eq!(hit_sphere_11(&center, 32768, &wide), -FX_ONE);
    assert_eq!(hit_sphere_12(&center, 32768, &wide), -FX_ONE);
}

#[test]
fn test_set_face_normal_orientations() {
    let mut rec = HitRecord {
        p: point3(0, 0, 0),
        normal: vec3_(0, 0, 0),
        t: 0,
        front_face: false,
        material: gray(),
    };
    let outward = vec3_(0, FX_ONE, 0);
    let from_above = Ray::new(&point3(0, FX_ONE, 0), &vec3_(0, -FX_ONE, 0));
    rec.set_face_normal(&from_above, &outward);
    assert!(rec.front_face);
    assert_eq!(rec.normal, outward);
    assert!(from_above.dir.dot(&rec.normal) <= 0);

    let from_below = Ray::new(&point3(0, -FX_ONE, 0), &vec3_(0, FX_ONE, 0));
    rec.set_face_normal(&from_below, &outward);
    assert!(!rec.front_face);
    assert_eq!(rec.normal, vec3_(0, -FX_ONE, 0));
    assert!(from_below.dir.dot(&rec.normal) <= 0);
}

fn sample_record(material: Material) -> (Ray, HitRecord) {
    let ray = Ray::new(&point3(0, FX_ONE, 0), &vec3_(0, -FX_ONE, 0));
    let rec = HitRecord {
        p: point3(0, 0, 0),
        normal: vec3_(0, FX_ONE, 0),
        t: FX_ONE,
        front_face: true,
        material,
    };
    (ray, rec)
}

#[test]
fn test_lambertian_scatter_energy() {
    let m = Lambertian::new(45875, 19661, 19661);
    let (ray, rec) = sample_record(m);
    let mut rng = rand::rngs::StdRng::seed_from_u64(1);
    for _ in 0..50 {
        let sr = m.scatter(&ray, &rec, &mut rng).expect("diffuse always scatters");
        assert_eq!(sr.attenuation, color(45875, 19661, 19661));
        assert_eq!(sr.scattered.origin, rec.p);
        assert!(0 <= sr.attenuation.x && sr.attenuation.x <= FX_ONE);
        assert!(0 <= sr.attenuation.y && sr.attenuation.y <= FX_ONE);
        assert!(0 <= sr.attenuation.z && sr.attenuation.z <= FX_ONE);
    }
}

#[test]
fn test_metal_scatter_energy_and_absorption() {
    let m = Metal::new(&color(52429, 52429, 52429), 6554);
    let (ray, rec) = sample_record(m);
    let mut rng = rand::rngs::StdRng::seed_from_u64(2);
    for _ in 0..50 {
        if let Some(sr) = m.scatter(&ray, &rec, &mut rng) {
            assert_eq!(sr.attenuation, color(52429, 52429, 52429));
            assert_eq!(sr.scattered.origin, rec.p);
            assert!(sr.scattered.dir.dot(&rec.normal) > 0);
        }
    }
    // a reflection driven into the surface is absorbed
    let sharp = Metal::new(&color(FX_ONE, FX_ONE, FX_ONE), 0);
    let inward = Ray::new(&point3(0, -FX_ONE, 0), &vec3_(0, FX_ONE, 0));
    let rec2 = HitRecord { normal: vec3_(0, FX_ONE, 0), ..sample_record(sharp).1 };
    let none = sharp.scatter(&inward, &rec2, &mut rng);
    assert!(none.is_none());
}

#[test]
fn test_dielectric_scatter_is_transparent() {
    let m = Dielectric::new(98304);
    let (ray, rec) = sample_record(m);
    let mut rng = rand::rngs::StdRng::seed_from_u64(3);
    for _ in 0..50 {
        let sr = m.scatter(&ray, &rec, &mut rng).expect("glass always scatters");
        assert_eq!(sr.attenuation, color(FX_ONE, FX_ONE, FX_ONE));
        assert_eq!(sr.scattered.origin, rec.p);
    }
}

#[test]
fn test_metal_fuzz_clamped() {
    match Metal::new(&color(FX_ONE, FX_ONE, FX_ONE), 3 * FX_ONE) {
        Material::Metal(m) => assert_eq!(m.fuzz, FX_ONE),
        _ => panic!("expected a metal"),
    }
    match Metal::new(&color(FX_ONE, FX_ONE, FX_ONE), -FX_ONE) {
        Material::Metal(m) => assert_eq!(m.fuzz, 0),
        _ => panic!("expected a metal"),
    }
}

#[test]
fn test_reflectance_boundary_and_range() {
    // ratio 1/1.5 entering glass
    let eta_ratio = fx_div(FX_ONE, 98304);
    assert_eq!(eta_ratio, 43690);
    // at cosine one only the base reflectance remains
    assert_eq!(Dielectric::reflectance(FX_ONE, eta_ratio), 2621);
    // at grazing incidence everything reflects
    assert_eq!(Dielectric::reflectance(0, eta_ratio), FX_ONE);
    assert_eq!(Dielectric::reflectance(32768, eta_ratio), 4587);
    let mut cosine: i64 = 0;
    while cosine <= FX_ONE {
        let r = Dielectric::reflectance(cosine, eta_ratio);
        assert!(0 <= r && r <= FX_ONE);
        cosine += 4096;
    }
}

#[test]
fn test_camera_default_center_ray() {
    let cam = Camera::default();
    assert_eq!(cam.lower_left_corner, point3(-116508, -65536, -65536));
    let ray = cam.get_ray(32768, 32768);
    assert_eq!(ray.origin, point3(0, 0, 0));
    assert_eq!(ray.dir, vec3_(0, 0, -FX_ONE));
}

#[test]
fn test_viewport_width_height() {
    let (w, h) = viewport_width_height(FX_ONE, 116508);
    assert_eq!(h, 2 * FX_ONE);
    assert_eq!(w, 233016);
}

#[test]
fn test_listing_9_24_exact_pixels() {
    let (pixels, height) = listing_9_24(9, 8);
    assert_eq!(height, 4);
    assert_eq!(pixels.len(), 32);
    assert_eq!(pixels[0], Rgb8 { r: 196, g: 222, b: 255 });
    assert_eq!(pixels[31], Rgb8 { r: 227, g: 239, b: 255 });
    let (p24, h24) = listing_9_24(24, 8);
    assert_eq!(h24, 4);
    assert_eq!(p24.len(), 32);
}

fn render_default_camera(
    world: &HittableList,
    w: u32,
    h: u32,
    samples: i32,
    depth: i32,
    seed: u64,
) -> Vec<Rgb8> {
    let camera = Camera::default();
    let mut rng = rand::rngs::StdRng::seed_from_u64(seed);
    let mut pixels = Vec::new();
    for j in 0..h {
        for i in 0..w {
            let mut pc = color(0, 0, 0);
            for _ in 0..samples {
                let u = fx_div(
                    (i as i64) * 65536 + random_unif_1(&mut rng),
                    ((w - 1) as i64) * 65536,
                );
                let v = fx_div(
                    ((h - j) as i64) * 65536 + random_unif_1(&mut rng),
                    ((h - 1) as i64) * 65536,
                );
                let ray = camera.get_ray(u, v);
                pc.add_assign(&ray_color_49(&ray, &mut rng, world, depth));
            }
            pixels.push(pc.to_rgb_sampled(samples));
        }
    }
    pixels
}

#[test]
fn test_end_to_end_two_sphere_scene() {
    // ground sphere with yellow-green albedo, reddish sphere ahead
    let mut objects: Vec<Sphere> = Vec::new();
    objects.push(Sphere::new(
        point3(0, -6586368, -FX_ONE),
        100 * FX_ONE,
        Lambertian::new(52429, 52429, 0),
    ));
    objects.push(Sphere::new(point3(0, 0, -FX_ONE), 32768, Lambertian::new(45875, 19661, 19661)));
    let world = hittable_list(&objects);
    let (w, h) = (17u32, 9u32);
    let pixels = render_default_camera(&world, w, h, 30, 10, 7);

    // center: the reddish sphere
    let center = pixels[(4 * w + 8) as usize];
    assert!(center.r > center.g);
    assert!(center.r > center.b);

    // top middle: sky, graded toward blue
    let sky = pixels[8];
    assert!(sky.b >= sky.g);
    assert!(sky.g >= sky.r);
    assert!(sky.b > 200);

    // bottom middle: the ground, with almost no blue of its own
    let ground = pixels[((h - 1) * w + 8) as usize];
    assert!(ground.r > ground.b);
    assert!(ground.g > ground.b);
}

fn render_focus_camera(
    world: &HittableList,
    aperture: i64,
    w: u32,
    h: u32,
    samples: i32,
    seed: u64,
) -> Vec<Rgb8> {
    let camera = CameraWithFocus::new(
        &point3(0, 0, 0),
        &point3(0, 0, -FX_ONE),
        vec3_(0, FX_ONE, 0),
        FX_ONE,
        116508,
        aperture,
        FX_ONE,
    );
    let mut rng = rand::rngs::StdRng::seed_from_u64(seed);
    let mut pixels = Vec::new();
    for j in 0..h {
        for i in 0..w {
            let mut pc = color(0, 0, 0);
            for _ in 0..samples {
                let u = fx_div(
                    (i as i64) * 65536 + random_unif_1(&mut rng),
                    ((w - 1) as i64) * 65536,
                );
                let v = fx_div(
                    ((h - j) as i64) * 65536 + random_unif_1(&mut rng),
                    ((h - 1) as i64) * 65536,
                );
                let ray = camera.get_ray(u, v, &mut rng);
                pc.add_assign(&ray_color_49(&ray, &mut rng, world, 10));
            }
            pixels.push(pc.to_rgb_sampled(samples));
        }
    }
    pixels
}

#[test]
fn test_depth_of_field_changes_off_focus_pixels() {
    let mut objects: Vec<Sphere> = Vec::new();
    objects.push(Sphere::new(point3(0, 0, -FX_ONE), 32768, Lambertian::new(52429, 52429, 52429)));
    let world = hittable_list(&objects);
    let (w, h) = (17u32, 9u32);
    let narrow = render_focus_camera(&world, 0, w, h, 20, 11);
    let wide = render_focus_camera(&world, 52429, w, h, 20, 11);
    // somewhere away from the focus plane the renders must differ
    assert_ne!(narrow, wide);
    // the sphere center sits on the focus plane: both renders stay close there
    let a = narrow[(4 * w + 8) as usize];
    let b = wide[(4 * w + 8) as usize];
    assert!((a.r as i32 - b.r as i32).abs() <= 80);
    assert!((a.g as i32 - b.g as i32).abs() <= 80);
    assert!((a.b as i32 - b.b as i32).abs() <= 80);
}

#[test]
fn test_render_determinism_same_seed() {
    let rp = RenderParams::new(98304, 16, 2);
    let mut rng1 = rand::rngs::StdRng::seed_from_u64(42);
    let mut rng2 = rand::rngs::StdRng::seed_from_u64(42);
    let a = listing_69_(69, rp, &mut rng1);
    let b = listing_69_(69, rp, &mut rng2);
    assert_eq!(a, b);

    let mut rng3 = rand::rngs::StdRng::seed_from_u64(9);
    let mut rng4 = rand::rngs::StdRng::seed_from_u64(9);
    let c = listing_30_68(49, rp, &mut rng3);
    let d = listing_30_68(49, rp, &mut rng4);
    assert_eq!(c, d);
    assert_eq!(c.len(), (rp.img_width * rp.img_height) as usize);
}

#[test]
fn test_render_final_scenes_smoke() {
    let rp = RenderParams::new(98304, 8, 1);
    let mut rng = rand::rngs::StdRng::seed_from_u64(100);
    let p70 = listing_69_(70, rp, &mut rng);
    assert_eq!(p70.len(), (rp.img_width * rp.img_height) as usize);
    let p71 = listing_69_(71, rp, &mut rng);
    assert_eq!(p71.len(), (rp.img_width * rp.img_height) as usize);
    let p30 = listing_30_68(30, rp, &mut rng);
    assert_eq!(p30.len(), (rp.img_width * rp.img_height) as usize);
    let p66 = listing_30_68(66, rp, &mut rng);
    assert_eq!(p66.len(), (rp.img_width * rp.img_height) as usize);
}

#[test]
fn test_listing_1_exact_pixels() {
    let pixels = raytracer::render::listing_1(4, 4);
    assert_eq!(pixels.len(), 16);
    assert_eq!(pixels[0], Rgb8 { r: 0, g: 0, b: 63 });
    assert_eq!(pixels[3], Rgb8 { r: 255, g: 0, b: 63 });
    assert_eq!(pixels[5], Rgb8 { r: 85, g: 85, b: 63 });
    assert_eq!(pixels[15], Rgb8 { r: 255, g: 255, b: 63 });
}

#[test]
fn test_listing_7_exact_pixels() {
    let pixels = raytracer::render::listing_7(4, 4);
    assert_eq!(pixels.len(), 16);
    assert_eq!(pixels[0], Rgb8 { r: 0, g: 0, b: 127 });
    assert_eq!(pixels[3], Rgb8 { r: 255, g: 0, b: 127 });
    assert_eq!(pixels[5], Rgb8 { r: 147, g: 147, b: 127 });
    assert_eq!(pixels[15], Rgb8 { r: 255, g: 255, b: 127 });
}

#[test]
fn test_hittable_single_and_default() {
    let s = Sphere::new(point3(0, 0, -FX_ONE), 32768, gray());
    let world = raytracer::hittable::hittable_single(s);
    assert_eq!(world.objects.len(), 1);
    let ray = Ray::new(&Vec3::default(), &vec3_(0, 0, -FX_ONE));
    let rec = world.hit(&ray, 66, INF).expect("must hit");
    assert_eq!(rec.t, 32768);
}
