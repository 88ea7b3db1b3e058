use raytracer::fx::{clamp, fx_add, fx_div, fx_mul, fx_sqrt, fx_sub, FX_ONE};
use raytracer::vec3::{color, point3, vec3_, Vec3};
use raytracer::vec3_img::{color_no_gamma, Rgb8};
use rand::SeedableRng;

#[test]
fn test_add_assign() {
    let mut v1 = vec3_(FX_ONE, 2 * FX_ONE, 3 * FX_ONE);
    let v2 = vec3_(4 * FX_ONE, 3 * FX_ONE, 2 * FX_ONE);
    let expect = vec3_(5 * FX_ONE, 5 * FX_ONE, 5 * FX_ONE);
    v1.add_assign(&v2);
    assert_eq!(v1, expect);
}

#[test]
fn test_length_squared() {
    let v1 = vec3_(FX_ONE, 2 * FX_ONE, 3 * FX_ONE);
    assert_eq!(v1.length_squared(), 14 * FX_ONE);
}

#[test]
fn test_length() {
    let v1 = vec3_(3 * FX_ONE, 4 * FX_ONE, 0);
    assert_eq!(v1.length(), 5 * FX_ONE);
}

#[test]
fn test_cross() {
    let ux = vec3_(FX_ONE, 0, 0);
    let uy = vec3_(0, FX_ONE, 0);
    let uz = vec3_(0, 0, FX_ONE);
    assert_eq!(ux.cross(&uy), uz);
    assert_eq!(uy.cross(&uz), ux);
    assert_eq!(uz.cross(&ux), uy);
}

#[test]
fn test_dot_symmetry_values() {
    let a = vec3_(12345, -54321, 777);
    let b = vec3_(-999, 31415, 2718);
    assert_eq!(a.dot(&b), b.dot(&a));
}

#[test]
fn test_cross_antisymmetry_values() {
    let a = vec3_(12345, -54321, 777);
    let b = vec3_(-999, 31415, 2718);
    assert_eq!(a.cross(&b), b.cross(&a).neg());
}

#[test]
fn test_unit_vector_length_near_one() {
    let u = vec3_(3 * FX_ONE, 4 * FX_ONE, 0).unit_vector();
    assert_eq!(u, vec3_(39321, 52428, 0));
    let l = u.length();
    assert!(FX_ONE - 4 <= l && l <= FX_ONE + 4);

    let u2 = vec3_(FX_ONE, 2 * FX_ONE, 3 * FX_ONE).unit_vector();
    let l2 = u2.length();
    assert!(FX_ONE - 4 <= l2 && l2 <= FX_ONE + 4);
}

#[test]
fn test_unit_vector_of_zero_is_guarded() {
    let z = vec3_(0, 0, 0);
    assert_eq!(z.unit_vector(), z);
}

#[test]
fn test_near_zero() {
    assert!(vec3_(0, 0, 0).near_zero());
    assert!(!vec3_(1, 0, 0).near_zero());
    assert!(!vec3_(0, -1, 0).near_zero());
}

#[test]
fn test_reflect_exact() {
    let v = vec3_(FX_ONE, -FX_ONE, 0);
    let n = vec3_(0, FX_ONE, 0);
    assert_eq!(v.reflect(&n), vec3_(FX_ONE, FX_ONE, 0));
}

#[test]
fn test_refract_straight_through() {
    // head-on incidence refracts straight through for any index ratio
    let uv = vec3_(0, -FX_ONE, 0);
    let n = vec3_(0, FX_ONE, 0);
    let refracted = uv.refract(&n, 43690);
    assert_eq!(refracted, vec3_(0, -FX_ONE, 0));
}

#[test]
fn test_component_ops() {
    let a = point3(2 * FX_ONE, 3 * FX_ONE, -FX_ONE);
    let b = point3(FX_ONE, FX_ONE, FX_ONE);
    assert_eq!(a.add(&b), point3(3 * FX_ONE, 4 * FX_ONE, 0));
    assert_eq!(a.sub(&b), point3(FX_ONE, 2 * FX_ONE, -2 * FX_ONE));
    assert_eq!(a.mul(&b), a);
    assert_eq!(a.scale(2 * FX_ONE), point3(4 * FX_ONE, 6 * FX_ONE, -2 * FX_ONE));
    assert_eq!(a.div_scalar(2 * FX_ONE), point3(FX_ONE, 98304, -32768));
    let mut c = a;
    c.mul_assign(2 * FX_ONE);
    assert_eq!(c, a.scale(2 * FX_ONE));
    let mut d = a;
    d.div_assign(2 * FX_ONE);
    assert_eq!(d, a.div_scalar(2 * FX_ONE));
}

#[test]
fn test_fx_scalar_ops() {
    assert_eq!(fx_mul(32768, 32768), 16384);
    assert_eq!(fx_add(FX_ONE, FX_ONE), 2 * FX_ONE);
    assert_eq!(fx_sub(FX_ONE, 2 * FX_ONE), -FX_ONE);
    assert_eq!(fx_div(FX_ONE, 2 * FX_ONE), 32768);
    assert_eq!(fx_div(-FX_ONE, 2 * FX_ONE), -32768);
    assert_eq!(fx_sqrt(4 * FX_ONE), 2 * FX_ONE);
    assert_eq!(fx_sqrt(16384), 32768);
}

#[test]
fn test_clamp() {
    assert_eq!(clamp(3 * FX_ONE, FX_ONE, 2 * FX_ONE), 2 * FX_ONE);
    assert_eq!(clamp(0, FX_ONE, 2 * FX_ONE), FX_ONE);
    assert_eq!(clamp(98304, FX_ONE, 2 * FX_ONE), 98304);
}

#[test]
fn test_to_rgb_exact() {
    let c = color(FX_ONE, 16384, 0).to_rgb();
    assert_eq!(c, Rgb8 { r: 255, g: 127, b: 0 });
}

#[test]
fn test_to_rgb_clamps_above_one() {
    // overly bright channels saturate instead of wrapping
    let c = color(10 * FX_ONE, 2 * FX_ONE, FX_ONE).to_rgb();
    assert_eq!(c, Rgb8 { r: 255, g: 255, b: 255 });
    let d = color(-FX_ONE, 0, 0).to_rgb();
    assert_eq!(d, Rgb8 { r: 0, g: 0, b: 0 });
}

#[test]
fn test_to_rgb_sampled_mean() {
    // two accumulated samples averaging to one and one half
    let c = color(2 * FX_ONE, FX_ONE, 0).to_rgb_sampled(2);
    assert_eq!(c, Rgb8 { r: 255, g: 181, b: 0 });
}

#[test]
fn test_color_no_gamma_exact() {
    let c = color_no_gamma(FX_ONE, 32768, 2 * FX_ONE);
    assert_eq!(c, Rgb8 { r: 255, g: 127, b: 255 });
}

#[test]
fn test_random_unif_ranges() {
    let mut rng = rand::rngs::StdRng::seed_from_u64(11);
    let mut all_equal = true;
    let mut prev: Option<i64> = None;
    for _ in 0..200 {
        let u = raytracer::rtweekend::random_unif_1(&mut rng);
        assert!(0 <= u && u < FX_ONE);
        if let Some(p) = prev {
            if p != u {
                all_equal = false;
            }
        }
        prev = Some(u);
        let v = raytracer::rtweekend::random_unif(&mut rng, -FX_ONE, FX_ONE);
        assert!(-FX_ONE <= v && v <= FX_ONE);
    }
    assert!(!all_equal);
}

#[test]
fn test_rand_vectors_in_bounds() {
    let mut rng = rand::rngs::StdRng::seed_from_u64(5);
    for _ in 0..50 {
        let v = Vec3::rand_in_sphere_1(&mut rng);
        assert!(v.length_squared() < FX_ONE);
        let d = Vec3::random_in_disk_1(&mut rng);
        assert!(d.length_squared() < FX_ONE);
        assert_eq!(d.z, 0);
        let n = vec3_(0, FX_ONE, 0);
        let h = Vec3::rand_hemisphere(&mut rng, &n);
        assert!(h.dot(&n) >= 0);
        // short samples are rejected, so the length is tight for every draw
        let u = Vec3::random_unit_vector(&mut rng);
        let l = u.length();
        assert!(FX_ONE - 6 <= l && l <= FX_ONE + 8);
    }
}
