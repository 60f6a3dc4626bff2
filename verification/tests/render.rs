use std::cell::Cell;

use rayt::float3::Float3;
use rayt::kernel::Kernel;
use rayt::scalar::Scalar;
use rayt::ray::Ray;
use rayt::render::DiffuseLight;
use rayt::render::Lambertian;
use rayt::render::Material;
use rayt::render::Metal;
use rayt::shape::HitInfo;
use rayt::shape::Sphere;

/// The kernel in hardware doubles. What chance would draw is fixed: the
/// kernel hands out `uniforms` one after the other, over and over.
struct Doubles {
    uniforms: Vec<f64>,
    drawn: Cell<usize>,
}

impl Doubles {
    /// The kernel whose random points inside the unit sphere are all `jitter`.
    fn new(jitter: [f64; 3]) -> Doubles {
        Doubles::drawing(jitter.iter().map(|j| (j + 1.0) / 2.0).collect())
    }

    fn drawing(uniforms: Vec<f64>) -> Doubles {
        Doubles { uniforms, drawn: Cell::new(0) }
    }
}

fn s(x: f64) -> Scalar {
    Scalar::from_bits(x.to_bits())
}

fn f(x: Scalar) -> f64 {
    f64::from_bits(x.to_bits())
}

fn v(a: [f64; 3]) -> Float3 {
    Float3::new(s(a[0]), s(a[1]), s(a[2]))
}

impl Kernel for Doubles {
    fn sum(&self, a: Scalar, b: Scalar) -> Scalar {
        s(f(a) + f(b))
    }

    fn difference(&self, a: Scalar, b: Scalar) -> Scalar {
        s(f(a) - f(b))
    }

    fn product(&self, a: Scalar, b: Scalar) -> Scalar {
        s(f(a) * f(b))
    }

    fn quotient(&self, a: Scalar, b: Scalar) -> Scalar {
        s(f(a) / f(b))
    }

    fn root(&self, a: Scalar) -> Scalar {
        s(f(a).sqrt())
    }

    fn tangent(&self, a: Scalar) -> Scalar {
        s(f(a).tan())
    }

    fn power(&self, a: Scalar, b: Scalar) -> Scalar {
        s(f(a).powf(f(b)))
    }

    fn uniform(&self) -> Scalar {
        let i = self.drawn.get();
        self.drawn.set(i + 1);
        s(self.uniforms[i % self.uniforms.len()])
    }

    fn count(&self, n: usize) -> Scalar {
        s(n as f64)
    }
}

fn ray(origin: [f64; 3], direction: [f64; 3]) -> Ray {
    Ray::new(v(origin), v(direction))
}

fn still() -> Doubles {
    Doubles::new([0.0; 3])
}

/// A hit at the origin of a surface whose normal points up.
fn hit_on_the_floor(material: Material) -> HitInfo {
    let floor = Sphere::new(v([0.0, -1.0, 0.0]), s(1.0), material);
    let down = ray([0.0, 2.0, 0.0], [0.0, -1.0, 0.0]);
    floor.hit(&down, s(0.001), s(f64::MAX), &still()).expect("the floor is below")
}

fn slanting() -> Ray {
    ray([-1.0, 1.0, 0.0], [1.0, -1.0, 0.0])
}

fn grazing() -> Ray {
    ray([-1.0, 0.01, 0.0], [1.0, -0.01, 0.0])
}

#[test]
fn the_floor_is_hit_at_the_origin_with_the_normal_up() {
    let hit = hit_on_the_floor(Material::Lambertian(Lambertian::new(v([0.5, 0.5, 0.5]))));
    assert_eq!(hit.t, s(2.0));
    assert_eq!(hit.p, v([0.0, 0.0, 0.0]));
    assert_eq!(hit.n, v([0.0, 1.0, 0.0]));
}

#[test]
fn lambertian_decides_to_scatter_in_any_direction() {
    let matte = Lambertian::new(v([0.8, 0.3, 0.3]));
    let hit = hit_on_the_floor(Material::Lambertian(matte));
    for direction in [[0.25, 1.5, -0.5], [0.0, -1.0, 0.0], [0.0, 0.0, 0.0]] {
        let scatter = matte.decide(v(direction), &hit).expect("a diffuse surface scatters");
        assert_eq!(scatter.ray, ray([0.0, 0.0, 0.0], direction));
        assert_eq!(scatter.albedo, v([0.8, 0.3, 0.3]));
    }
    assert!(matte.decide(v([f64::NAN, 0.0, 0.0]), &hit).is_some());
}

#[test]
fn lambertian_scatters_round_the_normal() {
    let matte = Lambertian::new(v([0.8, 0.3, 0.3]));
    let hit = hit_on_the_floor(Material::Lambertian(matte));
    let kernel = Doubles::new([0.25, -0.5, 0.125]);
    let scatter = matte.scatter(&slanting(), &hit, &kernel).expect("a diffuse surface scatters");
    assert_eq!(scatter.ray, ray([0.0, 0.0, 0.0], [0.25, 0.5, 0.125]));
    assert_eq!(scatter.albedo, v([0.8, 0.3, 0.3]));
    assert_eq!(kernel.drawn.get(), 3);
}

#[test]
fn lambertian_scatters_round_the_normal_with_the_first_draw_inside() {
    let matte = Lambertian::new(v([0.8, 0.3, 0.3]));
    let hit = hit_on_the_floor(Material::Lambertian(matte));
    // The cube's corner and a point of the sphere itself are rejected.
    let kernel = Doubles::drawing(vec![0.95, 0.95, 0.95, 1.0, 0.5, 0.5, 0.75, 0.25, 0.75]);
    let scatter = matte.scatter(&slanting(), &hit, &kernel).expect("a diffuse surface scatters");
    assert_eq!(scatter.ray, ray([0.0, 0.0, 0.0], [0.5, 0.5, 0.5]));
    assert_eq!(kernel.drawn.get(), 9);
}

#[test]
fn lambertian_emits_nothing() {
    let matte = Lambertian::new(v([0.8, 0.3, 0.3]));
    let hit = hit_on_the_floor(Material::Lambertian(matte));
    assert_eq!(matte.emitted(&slanting(), &hit), v([0.0, 0.0, 0.0]));
}

#[test]
fn metal_decides_by_the_side_the_direction_points_to() {
    let steel = Metal::new(v([0.5, 0.6, 0.7]), s(0.5));
    let hit = hit_on_the_floor(Material::Metal(steel));
    for facing in [1e-300, 0.5, f64::INFINITY] {
        let scatter = steel.decide(v([1.0, 1.0, 0.0]), s(facing), &hit).expect("the direction leaves the surface");
        assert_eq!(scatter.ray, ray([0.0, 0.0, 0.0], [1.0, 1.0, 0.0]));
        assert_eq!(scatter.albedo, v([0.5, 0.6, 0.7]));
    }
    for facing in [0.0, -0.0, -1e-300, -0.5, f64::NAN, f64::NEG_INFINITY] {
        assert!(steel.decide(v([1.0, 0.0, 0.0]), s(facing), &hit).is_none());
    }
}

#[test]
fn polished_metal_mirrors_the_ray() {
    let steel = Metal::new(v([0.5, 0.6, 0.7]), s(0.0));
    let hit = hit_on_the_floor(Material::Metal(steel));
    let scatter = steel.scatter(&slanting(), &hit, &Doubles::new([0.0, -0.9, 0.0])).expect("the mirrored ray rises");
    let two: f64 = 2.0;
    let u = 1.0 / two.sqrt();
    assert_eq!(scatter.ray.origin, v([0.0, 0.0, 0.0]));
    assert_eq!(scatter.ray.direction, v([u, u, 0.0]));
    assert_eq!(scatter.albedo, v([0.5, 0.6, 0.7]));
}

#[test]
fn metal_absorbs_a_reflection_fuzzed_into_the_surface() {
    let steel = Metal::new(v([0.5, 0.6, 0.7]), s(1.0));
    let hit = hit_on_the_floor(Material::Metal(steel));
    // A grazing ray mirrors to a direction that barely rises; the jitter pushes it below.
    assert!(steel.scatter(&grazing(), &hit, &Doubles::new([0.0, -0.5, 0.0])).is_none());
    let scatter = steel.scatter(&grazing(), &hit, &Doubles::new([0.0, 0.5, 0.0])).expect("the jitter lifts the ray");
    assert!(f(scatter.ray.direction.y()) > 0.5);
}

#[test]
fn metal_keeps_its_fuzz_and_emits_nothing() {
    let steel = Metal::new(v([0.5, 0.6, 0.7]), s(0.25));
    assert_eq!(steel.fuzz, s(0.25));
    let hit = hit_on_the_floor(Material::Metal(steel));
    assert_eq!(steel.emitted(&slanting(), &hit), v([0.0, 0.0, 0.0]));
}

#[test]
fn light_never_scatters_and_emits_its_colour() {
    let lamp = DiffuseLight::new(v([40.0, 30.0, 20.0]));
    let hit = hit_on_the_floor(Material::DiffuseLight(lamp));
    let kernel = still();
    assert!(lamp.scatter(&slanting(), &hit, &kernel).is_none());
    assert_eq!(kernel.drawn.get(), 0);
    assert_eq!(lamp.emitted(&slanting(), &hit), v([40.0, 30.0, 20.0]));
}

#[test]
fn material_does_what_its_kind_does() {
    let matte = Material::Lambertian(Lambertian::new(v([0.1, 0.2, 0.3])));
    let steel = Material::Metal(Metal::new(v([0.4, 0.5, 0.6]), s(0.0)));
    let lamp = Material::DiffuseLight(DiffuseLight::new(v([7.0, 8.0, 9.0])));

    let hit = hit_on_the_floor(matte);
    assert_eq!(matte.scatter(&slanting(), &hit, &still()).expect("scatters").albedo, v([0.1, 0.2, 0.3]));
    assert_eq!(matte.emitted(&slanting(), &hit), v([0.0, 0.0, 0.0]));

    let hit = hit_on_the_floor(steel);
    assert_eq!(steel.scatter(&slanting(), &hit, &still()).expect("scatters").albedo, v([0.4, 0.5, 0.6]));
    assert_eq!(steel.emitted(&slanting(), &hit), v([0.0, 0.0, 0.0]));

    let hit = hit_on_the_floor(lamp);
    assert!(lamp.scatter(&slanting(), &hit, &still()).is_none());
    assert_eq!(lamp.emitted(&slanting(), &hit), v([7.0, 8.0, 9.0]));
}
