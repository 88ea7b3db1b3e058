//! Scene construction: the worlds the renderers draw.
//!
//! Scalars are fixed-point with 16 fractional bits, so 65536 is one; color
//! literals are the nearest representable fractions.

use vstd::prelude::*;

use crate::fx::{fx_mul, FX_ONE};
use crate::hittable::{hittable_list, HittableList};
use crate::material::{spec_color_unit, Dielectric, Lambertian, Material, Metal};
use crate::rtweekend::{random_unif, random_unif_1};
use crate::sphere::Sphere;
use crate::vec3::{color, point3, spec_vlen, spec_vlen2, spec_vscale, spec_vsub, Vec3, V3};

verus! {

/// The two-sphere scene: a small white diffuse sphere ahead of the camera
/// and a large one forming the ground below it.
pub open spec fn spec_two_sphere_objs() -> Seq<Sphere> {
    seq![
        Sphere {
            center: Vec3 { x: 0, y: 0, z: -65536i64 },
            radius: 32768,
            material: Material::Lambertian(
                crate::material::Lambertian { albedo: Vec3 { x: 65536, y: 65536, z: 65536 } },
            ),
        },
        Sphere {
            center: Vec3 { x: 0, y: -6586368i64, z: -65536i64 },
            radius: 6553600,
            material: Material::Lambertian(
                crate::material::Lambertian { albedo: Vec3 { x: 65536, y: 65536, z: 65536 } },
            ),
        },
    ]
}

/// Two white diffuse spheres: a small one ahead of the camera and a large
/// ground sphere below it.
pub fn two_sphere_world() -> (w: HittableList)
    ensures
        w.wf(),
        w.objects@ =~= spec_two_sphere_objs(),
{
    let mut objects: Vec<Sphere> = Vec::new();
    objects.push(Sphere::new_cr(point3(0, 0, -FX_ONE), 32768));
    objects.push(Sphere::new_cr(point3(0, -6586368, -FX_ONE), 100 * FX_ONE));
    hittable_list(&objects)
}


/// The four-sphere layout as a value: a large ground sphere and three in a
/// row above it, carrying the given materials.
pub open spec fn spec_four_sphere_objs(
    mat_ground: Material,
    mat_center: Material,
    mat_left: Material,
    mat_right: Material,
) -> Seq<Sphere> {
    seq![
        Sphere {
            center: Vec3 { x: 0, y: -6586368i64, z: -65536i64 },
            radius: 6553600,
            material: mat_ground,
        },
        Sphere { center: Vec3 { x: 0, y: 0, z: -65536i64 }, radius: 32768, material: mat_center },
        Sphere {
            center: Vec3 { x: -65536i64, y: 0, z: -65536i64 },
            radius: 32768,
            material: mat_left,
        },
        Sphere { center: Vec3 { x: 65536, y: 0, z: -65536i64 }, radius: 32768, material: mat_right },
    ]
}

/// The same layout with the hollow shell inserted around the left sphere.
pub open spec fn spec_five_sphere_objs(
    mat_ground: Material,
    mat_center: Material,
    mat_left: Material,
    mat_right: Material,
) -> Seq<Sphere> {
    seq![
        Sphere {
            center: Vec3 { x: 0, y: -6586368i64, z: -65536i64 },
            radius: 6553600,
            material: mat_ground,
        },
        Sphere { center: Vec3 { x: 0, y: 0, z: -65536i64 }, radius: 32768, material: mat_center },
        Sphere {
            center: Vec3 { x: -65536i64, y: 0, z: -65536i64 },
            radius: 32768,
            material: mat_left,
        },
        Sphere {
            center: Vec3 { x: -65536i64, y: 0, z: -65536i64 },
            radius: -29491i64,
            material: mat_left,
        },
        Sphere { center: Vec3 { x: 65536, y: 0, z: -65536i64 }, radius: 32768, material: mat_right },
    ]
}

/// Four spheres with the given materials: a large ground sphere and three in
/// a row above it.
pub fn four_spheres_given_mats(
    mat_ground: Material,
    mat_center: Material,
    mat_left: Material,
    mat_right: Material,
) -> (w: HittableList)
    requires
        mat_ground.wf(),
        mat_center.wf(),
        mat_left.wf(),
        mat_right.wf(),
    ensures
        w.wf(),
        w.objects@ =~= spec_four_sphere_objs(mat_ground, mat_center, mat_left, mat_right),
{
    let mut objects: Vec<Sphere> = Vec::new();
    objects.push(Sphere::new(point3(0, -6586368, -FX_ONE), 100 * FX_ONE, mat_ground));
    objects.push(Sphere::new(point3(0, 0, -FX_ONE), 32768, mat_center));
    objects.push(Sphere::new(point3(-FX_ONE, 0, -FX_ONE), 32768, mat_left));
    objects.push(Sphere::new(point3(FX_ONE, 0, -FX_ONE), 32768, mat_right));
    hittable_list(&objects)
}

/// The same four-sphere layout with a fifth, inward-facing shell around the
/// left sphere (its negative radius hollows it out).
pub fn four_spheres_given_mats_60(
    mat_ground: Material,
    mat_center: Material,
    mat_left: Material,
    mat_right: Material,
) -> (w: HittableList)
    requires
        mat_ground.wf(),
        mat_center.wf(),
        mat_left.wf(),
        mat_right.wf(),
    ensures
        w.wf(),
        w.objects@ =~= spec_five_sphere_objs(mat_ground, mat_center, mat_left, mat_right),
{
    let mut objects: Vec<Sphere> = Vec::new();
    objects.push(Sphere::new(point3(0, -6586368, -FX_ONE), 100 * FX_ONE, mat_ground));
    objects.push(Sphere::new(point3(0, 0, -FX_ONE), 32768, mat_center));
    objects.push(Sphere::new(point3(-FX_ONE, 0, -FX_ONE), 32768, mat_left));
    // radius -0.45: a hollow glass shell
    objects.push(Sphere::new(point3(-FX_ONE, 0, -FX_ONE), -29491, mat_left));
    objects.push(Sphere::new(point3(FX_ONE, 0, -FX_ONE), 32768, mat_right));
    hittable_list(&objects)
}

/// Ground and center diffuse, sharp metal to the left and right.
pub fn four_sphere_world_50() -> (w: HittableList)
    ensures
        w.wf(),
        w.objects@ =~= spec_four_sphere_objs(
            Material::Lambertian(Lambertian { albedo: Vec3 { x: 52429, y: 52429, z: 0 } }),
            Material::Lambertian(Lambertian { albedo: Vec3 { x: 45875, y: 19661, z: 19661 } }),
            Material::Metal(Metal { albedo: Vec3 { x: 52429, y: 52429, z: 52429 }, fuzz: 0 }),
            Material::Metal(Metal { albedo: Vec3 { x: 52429, y: 39322, z: 13107 }, fuzz: 0 }),
        ),
{
    // albedos 0.8/0.8/0.0, 0.7/0.3/0.3, 0.8/0.8/0.8, 0.8/0.6/0.2
    let material_ground = Lambertian::new(52429, 52429, 0);
    let material_center = Lambertian::new(45875, 19661, 19661);
    let material_left = Metal::new_rgb(52429, 52429, 52429);
    let material_right = Metal::new_rgb(52429, 39322, 13107);
    four_spheres_given_mats(material_ground, material_center, material_left, material_right)
}

/// As before, with fuzzed metals.
pub fn four_sphere_world_52() -> (w: HittableList)
    ensures
        w.wf(),
        w.objects@ =~= spec_four_sphere_objs(
            Material::Lambertian(Lambertian { albedo: Vec3 { x: 52429, y: 52429, z: 0 } }),
            Material::Lambertian(Lambertian { albedo: Vec3 { x: 45875, y: 19661, z: 19661 } }),
            Material::Metal(Metal { albedo: Vec3 { x: 52429, y: 52429, z: 52429 }, fuzz: 19661 }),
            Material::Metal(Metal { albedo: Vec3 { x: 52429, y: 39322, z: 13107 }, fuzz: 65536 }),
        ),
{
    four_spheres_given_mats(
        Lambertian::new(52429, 52429, 0),
        Lambertian::new(45875, 19661, 19661),
        // fuzz 0.3
        Metal::new(&color(52429, 52429, 52429), 19661),
        // fuzz 1.0
        Metal::new(&color(52429, 39322, 13107), FX_ONE),
    )
}

/// Glass in the center and on the left.
pub fn four_sphere_world_55() -> (w: HittableList)
    ensures
        w.wf(),
        w.objects@ =~= spec_four_sphere_objs(
            Material::Lambertian(Lambertian { albedo: Vec3 { x: 52429, y: 52429, z: 0 } }),
            Material::Dielectric(Dielectric { eta: 98304 }),
            Material::Dielectric(Dielectric { eta: 98304 }),
            Material::Metal(Metal { albedo: Vec3 { x: 52429, y: 39322, z: 13107 }, fuzz: 0 }),
        ),
{
    four_spheres_given_mats(
        Lambertian::new(52429, 52429, 0),
        // index of refraction 1.5
        Dielectric::new(98304),
        Dielectric::new(98304),
        Metal::new_rgb(52429, 39322, 13107),
    )
}

/// Glass center and hollow glass shell on the left.
pub fn four_sphere_world_60() -> (w: HittableList)
    ensures
        w.wf(),
        w.objects@ =~= spec_five_sphere_objs(
            Material::Lambertian(Lambertian { albedo: Vec3 { x: 52429, y: 52429, z: 0 } }),
            Material::Dielectric(Dielectric { eta: 98304 }),
            Material::Dielectric(Dielectric { eta: 98304 }),
            Material::Metal(Metal { albedo: Vec3 { x: 52429, y: 39322, z: 13107 }, fuzz: 0 }),
        ),
{
    four_spheres_given_mats_60(
        Lambertian::new(52429, 52429, 0),
        Dielectric::new(98304),
        Dielectric::new(98304),
        Metal::new_rgb(52429, 39322, 13107),
    )
}

/// Blue diffuse center, hollow glass left, gold metal right.
pub fn four_sphere_world_65() -> (w: HittableList)
    ensures
        w.wf(),
        w.objects@ =~= spec_five_sphere_objs(
            Material::Lambertian(Lambertian { albedo: Vec3 { x: 52429, y: 52429, z: 0 } }),
            Material::Lambertian(Lambertian { albedo: Vec3 { x: 6554, y: 13107, z: 32768 } }),
            Material::Dielectric(Dielectric { eta: 98304 }),
            Material::Metal(Metal { albedo: Vec3 { x: 52429, y: 39322, z: 13107 }, fuzz: 0 }),
        ),
{
    four_spheres_given_mats_60(
        Lambertian::new(52429, 52429, 0),
        // albedo 0.1/0.2/0.5
        Lambertian::new(6554, 13107, 32768),
        Dielectric::new(98304),
        Metal::new_rgb(52429, 39322, 13107),
    )
}

/// What holds of every small grid sphere's material, by the material-choice
/// draw: diffuse with a unit-interval albedo, metal with an albedo in
/// [1/2, 1] and fuzz in [0, 1/2], or glass with index 1.5.
pub open spec fn spec_grid_sphere_material(m: Material) -> bool {
    ||| (m matches Material::Lambertian(l) && spec_color_unit(l.albedo))
    ||| (m matches Material::Metal(mt) && 32768 <= mt.albedo.x <= 65536 && 32768 <= mt.albedo.y
        <= 65536 && 32768 <= mt.albedo.z <= 65536 && 0 <= mt.fuzz <= 32768)
    ||| m == Material::Dielectric(Dielectric { eta: 98304 })
}

/// What holds of every small grid sphere: radius 0.2, centered at height
/// 0.2, clear of the point (4, 0.2, 0) by more than 0.9, with a material of
/// one of the three drawn kinds.
pub open spec fn spec_grid_sphere(s: Sphere) -> bool {
    &&& s.radius == 13107
    &&& s.center.y == 13107
    &&& spec_vlen(spec_vsub(s.center.v(), V3 { x: 262144, y: 13107, z: 0 })) > 58982
    &&& spec_grid_sphere_material(s.material)
}

/// The large final scene: a gray ground sphere, a grid of small randomly
/// placed and randomly colored spheres of radius 0.2, and three large
/// feature spheres of radius one: glass, brown diffuse and sharp metal.
pub fn many_sphere_world_70(rng: &mut rand::rngs::StdRng) -> (w: HittableList)
    ensures
        w.wf(),
        4 <= w.objects@.len() <= 488,
        w.objects@[0] == (Sphere {
            center: Vec3 { x: 0, y: -65536000i64, z: 0 },
            radius: 65536000,
            material: Material::Lambertian(
                Lambertian { albedo: Vec3 { x: 32768, y: 32768, z: 32768 } },
            ),
        }),
        forall|k: int| 1 <= k < w.objects@.len() - 3 ==> spec_grid_sphere(w.objects@[k]),
        w.objects@[w.objects@.len() - 3] == (Sphere {
            center: Vec3 { x: 0, y: 65536, z: 0 },
            radius: 65536,
            material: Material::Dielectric(Dielectric { eta: 98304 }),
        }),
        w.objects@[w.objects@.len() - 2] == (Sphere {
            center: Vec3 { x: -262144i64, y: 65536, z: 0 },
            radius: 65536,
            material: Material::Lambertian(
                Lambertian { albedo: Vec3 { x: 26214, y: 13107, z: 6554 } },
            ),
        }),
        w.objects@[w.objects@.len() - 1] == (Sphere {
            center: Vec3 { x: 262144, y: 65536, z: 0 },
            radius: 65536,
            material: Material::Metal(
                Metal { albedo: Vec3 { x: 45875, y: 39322, z: 32768 }, fuzz: 0 },
            ),
        }),
{
    let mut world = hittable_list(&Vec::new());
    let ground_material = Lambertian::new(32768, 32768, 32768);
    world.add(Sphere::new(point3(0, -1000 * FX_ONE, 0), 1000 * FX_ONE, ground_material));

    let ghost ground_sphere = world.objects@[0];

    let mut a: i64 = -11;
    while a < 11
        invariant
            world.wf(),
            1 <= world.objects@.len(),
            world.objects@.len() <= 1 + (a + 11) * 22,
            -11 <= a <= 11,
            world.objects@[0] == ground_sphere,
            forall|k: int| 1 <= k < world.objects@.len() ==> spec_grid_sphere(world.objects@[k]),
        decreases 11 - a,
    {
        let mut b: i64 = -11;
        while b < 11
            invariant
                world.wf(),
                1 <= world.objects@.len(),
                world.objects@.len() <= 1 + (a + 11) * 22 + (b + 11),
                -11 <= a < 11,
                -11 <= b <= 11,
                world.objects@[0] == ground_sphere,
                forall|k: int|
                    1 <= k < world.objects@.len() ==> spec_grid_sphere(world.objects@[k]),
            decreases 11 - b,
        {
            let choose_mat = random_unif_1(rng);
            let center = point3(
                // a + 0.9 * u, at height 0.2
                crate::fx::fx_add(a * FX_ONE, fx_mul(58982, random_unif_1(rng))),
                13107,
                crate::fx::fx_add(b * FX_ONE, fx_mul(58982, random_unif_1(rng))),
            );
            // keep clear of the point (4, 0.2, 0) by 0.9
            if center.sub(&point3(4 * FX_ONE, 13107, 0)).length() > 58982 {
                if choose_mat < 52429 {
                    // diffuse, albedo a product of two random colors
                    let c1 = Vec3::rand_unif(rng, 0, FX_ONE);
                    let c2 = Vec3::rand_unif(rng, 0, FX_ONE);
                    proof {
                        crate::fx::lemma_fx_mul_unit(c1.x as int, c2.x as int);
                        crate::fx::lemma_fx_mul_unit(c1.y as int, c2.y as int);
                        crate::fx::lemma_fx_mul_unit(c1.z as int, c2.z as int);
                    }
                    let albedo = c1.mul(&c2);
                    let sphere_material = Lambertian::with_color(albedo);
                    world.add(Sphere::new(center, 13107, sphere_material));
                } else if choose_mat < 62259 {
                    // metal, albedo in [0.5, 1], fuzz in [0, 0.5]
                    let albedo = Vec3::rand_unif(rng, 32768, FX_ONE);
                    let fuzz = random_unif(rng, 0, 32768);
                    let sphere_material = Metal::new(&albedo, fuzz);
                    world.add(Sphere::new(center, 13107, sphere_material));
                } else {
                    // glass
                    let sphere_material = Dielectric::new(98304);
                    world.add(Sphere::new(center, 13107, sphere_material));
                }
            }
            b = b + 1;
        }
        a = a + 1;
    }

    let material1 = Dielectric::new(98304);
    world.add(Sphere::new(point3(0, FX_ONE, 0), FX_ONE, material1));
    // albedo 0.4/0.2/0.1
    let material2 = Lambertian::new(26214, 13107, 6554);
    world.add(Sphere::new(point3(-4 * FX_ONE, FX_ONE, 0), FX_ONE, material2));
    // albedo 0.7/0.6/0.5, perfectly sharp
    let material3 = Metal::new(&point3(45875, 39322, 32768), 0);
    world.add(Sphere::new(point3(4 * FX_ONE, FX_ONE, 0), FX_ONE, material3));
    world
}

/// What holds of every small marble-interior sphere: radius 0.15, fuzz 0.1,
/// albedo in [1/2, 1], centered at 1.5 times an in-ball draw, hence strictly
/// inside the radius-two marble.
pub open spec fn spec_marble_sphere(s: Sphere) -> bool {
    &&& s.radius == 9830
    &&& (s.material matches Material::Metal(m) && m.fuzz == 6554 && 32768 <= m.albedo.x <= 65536
        && 32768 <= m.albedo.y <= 65536 && 32768 <= m.albedo.z <= 65536)
    &&& exists|d: V3| spec_vlen2(d) < 65536 && s.center.v() == spec_vscale(d, 98304)
}

/// A glass marble with small fuzzy metal spheres scattered inside it: the
/// marble itself, then fifty metal spheres of radius 0.15 and fuzz 0.1 whose
/// albedos lie in [0.5, 1], each centered inside the marble.
pub fn marble_v1(rng: &mut rand::rngs::StdRng) -> (w: HittableList)
    ensures
        w.wf(),
        w.objects@.len() == 51,
        w.objects@[0] == (Sphere {
            center: Vec3 { x: 0, y: 0, z: 0 },
            radius: 131072,
            material: Material::Dielectric(Dielectric { eta: 98304 }),
        }),
        forall|k: int| 1 <= k < 51 ==> spec_marble_sphere(w.objects@[k]),
{
    let mut world = hittable_list(&Vec::new());
    let glass = Dielectric::new(98304);
    // marble radius 2.0
    let rc: i64 = 131072;
    world.add(Sphere::new(point3(0, 0, 0), rc, glass));

    let mut i: u64 = 0;
    while i < 50
        invariant
            world.wf(),
            world.objects@.len() == 1 + i,
            i <= 50,
            world.objects@[0] == (Sphere {
                center: Vec3 { x: 0, y: 0, z: 0 },
                radius: 131072,
                material: Material::Dielectric(Dielectric { eta: 98304 }),
            }),
            forall|k: int| 1 <= k < 1 + i ==> spec_marble_sphere(world.objects@[k]),
        decreases 50 - i,
    {
        // centers inside radius 1.5, spheres of radius 0.15 with fuzz 0.1
        let draw = Vec3::rand_in_sphere_1(rng);
        let center = draw.scale(98304);
        let albedo = Vec3::rand_unif(rng, 32768, FX_ONE);
        let metal = Metal::new(&albedo, 6554);
        let sphere = Sphere::new(center, 9830, metal);
        proof {
            assert(spec_vlen2(draw.v()) < 65536 && sphere.center.v() == spec_vscale(
                draw.v(),
                98304,
            ));
            assert(spec_marble_sphere(sphere));
        }
        world.add(sphere);
        i = i + 1;
    }
    world
}

} // verus!
