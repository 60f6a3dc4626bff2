use std::cell::Cell;

use rayt::float3::Float3;
use rayt::kernel::Kernel;
use rayt::scalar::Scalar;
use rayt::camera::Camera;
use rayt::quaternion::Quaternion;
use rayt::ray::Ray;

/// The kernel in hardware doubles. What chance would draw is fixed: the
/// kernel hands out `uniforms` one after the other, over and over.
struct Doubles {
    uniforms: Vec<f64>,
    drawn: Cell<usize>,
}

impl Doubles {
    /// The kernel whose random points inside the unit sphere are all `jitter`.
    fn new(jitter: [f64; 3]) -> Doubles {
        Doubles::drawing(jitter.iter().map(|j| (j + 1.0) / 2.0).collect())
    }

    fn drawing(uniforms: Vec<f64>) -> Doubles {
        Doubles { uniforms, drawn: Cell::new(0) }
    }
}

fn s(x: f64) -> Scalar {
    Scalar::from_bits(x.to_bits())
}

fn f(x: Scalar) -> f64 {
    f64::from_bits(x.to_bits())
}

fn v(a: [f64; 3]) -> Float3 {
    Float3::new(s(a[0]), s(a[1]), s(a[2]))
}

impl Kernel for Doubles {
    fn sum(&self, a: Scalar, b: Scalar) -> Scalar {
        s(f(a) + f(b))
    }

    fn difference(&self, a: Scalar, b: Scalar) -> Scalar {
        s(f(a) - f(b))
    }

    fn product(&self, a: Scalar, b: Scalar) -> Scalar {
        s(f(a) * f(b))
    }

    fn quotient(&self, a: Scalar, b: Scalar) -> Scalar {
        s(f(a) / f(b))
    }

    fn root(&self, a: Scalar) -> Scalar {
        s(f(a).sqrt())
    }

    fn tangent(&self, a: Scalar) -> Scalar {
        s(f(a).tan())
    }

    fn power(&self, a: Scalar, b: Scalar) -> Scalar {
        s(f(a).powf(f(b)))
    }

    fn uniform(&self) -> Scalar {
        let i = self.drawn.get();
        self.drawn.set(i + 1);
        s(self.uniforms[i % self.uniforms.len()])
    }

    fn count(&self, n: usize) -> Scalar {
        s(n as f64)
    }
}

fn a(p: Float3) -> [f64; 3] {
    [f(p.x()), f(p.y()), f(p.z())]
}

fn k() -> Doubles {
    Doubles::new([0.0; 3])
}

fn ray(origin: [f64; 3], direction: [f64; 3]) -> Ray {
    Ray::new(v(origin), v(direction))
}

fn close(x: f64, y: f64) -> bool {
    (x - y).abs() <= 1e-12 * (1.0 + x.abs().max(y.abs()))
}

#[test]
fn ray_new_keeps_origin_and_direction() {
    let r = ray([1.0, 2.0, 3.0], [0.0, 0.0, 2.0]);
    assert_eq!(r.origin, v([1.0, 2.0, 3.0]));
    assert_eq!(r.direction, v([0.0, 0.0, 2.0]));
}

#[test]
fn rays_are_equal_where_both_parts_are() {
    let r = ray([1.0, 2.0, 3.0], [0.0, 0.0, 2.0]);
    assert_eq!(r, ray([1.0, 2.0, 3.0], [-0.0, 0.0, 2.0]));
    assert_ne!(r, ray([1.0, 2.0, 3.0], [0.0, 0.0, 1.0]));
    assert_ne!(r, ray([1.0, 2.5, 3.0], [0.0, 0.0, 2.0]));
}

#[test]
fn at_is_the_origin_plus_the_direction_times_the_parameter() {
    let r = ray([1.0, 2.0, 3.0], [0.5, 0.0, -2.0]);
    assert_eq!(r.at(s(0.0), &k()), v([1.0, 2.0, 3.0]));
    assert_eq!(r.at(s(1.0), &k()), v([1.5, 2.0, 1.0]));
    assert_eq!(r.at(s(-4.0), &k()), v([-1.0, 2.0, 11.0]));
}

#[test]
fn quadratic_of_a_ray_through_the_center() {
    let q = ray([0.0, 0.0, -5.0], [0.0, 0.0, 1.0]).quadratic(v([0.0, 0.0, 0.0]), s(1.0), &k());
    assert_eq!(q.a, s(1.0));
    assert_eq!(q.b, s(-10.0));
    assert_eq!(q.d, s(4.0));
    assert_eq!(q.near(&k()), s(4.0));
}

#[test]
fn quadratic_of_a_ray_that_is_not_of_unit_length() {
    let q = ray([0.0, 0.0, -5.0], [0.0, 0.0, 2.0]).quadratic(v([0.0, 0.0, 0.0]), s(1.0), &k());
    assert_eq!(q.a, s(4.0));
    assert_eq!(q.b, s(-20.0));
    assert_eq!(q.d, s(16.0));
    assert_eq!(q.near(&k()), s(2.0));
}

#[test]
fn hit_sphere_gives_the_parameter_of_the_near_crossing() {
    let eye = ray([0.0, 0.0, -5.0], [0.0, 0.0, 1.0]);
    assert_eq!(eye.hit_sphere(v([0.0, 0.0, 0.0]), s(1.0), &k()), s(4.0));
    assert_eq!(eye.hit_sphere(v([0.0, 0.0, 0.0]), s(2.0), &k()), s(3.0));
    assert_eq!(eye.hit_sphere(v([0.0, 1.0, 0.0]), s(1.0), &k()), s(5.0));
}

#[test]
fn hit_sphere_gives_a_crossing_behind_the_origin() {
    let away = ray([0.0, 0.0, 5.0], [0.0, 0.0, 1.0]);
    assert_eq!(away.hit_sphere(v([0.0, 0.0, 0.0]), s(1.0), &k()), s(-6.0));
}

#[test]
fn hit_sphere_gives_minus_one_for_a_miss() {
    let eye = ray([0.0, 0.0, -5.0], [0.0, 0.0, 1.0]);
    assert_eq!(eye.hit_sphere(v([0.0, 3.0, 0.0]), s(1.0), &k()), s(-1.0));
}

#[test]
fn camera_new_keeps_its_parts() {
    let c = Camera::new(v([0.0, 0.0, -1.0]), v([4.0, 0.0, 0.0]), v([0.0, 2.0, 0.0]), v([-2.0, -1.0, 0.0]));
    assert_eq!(c.origin, v([0.0, 0.0, -1.0]));
    assert_eq!(c.u, v([4.0, 0.0, 0.0]));
    assert_eq!(c.v, v([0.0, 2.0, 0.0]));
    assert_eq!(c.w, v([-2.0, -1.0, 0.0]));
}

#[test]
fn camera_ray_goes_from_the_eye_through_the_image_plane() {
    let c = Camera::new(v([0.0, 0.0, -1.0]), v([4.0, 0.0, 0.0]), v([0.0, 2.0, 0.0]), v([-2.0, -1.0, 0.0]));
    assert_eq!(c.ray(s(0.0), s(0.0), &k()), ray([0.0, 0.0, -1.0], [-2.0, -1.0, 1.0]));
    assert_eq!(c.ray(s(0.5), s(0.5), &k()), ray([0.0, 0.0, -1.0], [0.0, 0.0, 1.0]));
    assert_eq!(c.ray(s(1.0), s(1.0), &k()), ray([0.0, 0.0, -1.0], [2.0, 1.0, 1.0]));
    assert_eq!(c.ray(s(0.25), s(1.0), &k()), ray([0.0, 0.0, -1.0], [-1.0, 1.0, 1.0]));
}

#[test]
fn camera_from_lookat_looks_at_its_target() {
    let eye = [278.0, 278.0, -800.0];
    let c = Camera::from_lookat(v(eye), v([278.0, 278.0, 0.0]), v([0.0, 1.0, 0.0]), s(20.0), s(1.0), &k());
    assert_eq!(c.origin, v(eye));
    let middle = c.ray(s(0.5), s(0.5), &k());
    assert_eq!(middle.origin, v(eye));
    let d = a(middle.direction);
    assert!(close(d[0], 0.0) && close(d[1], 0.0) && close(d[2], 1.0), "the middle ray goes along {d:?}");
}

#[test]
fn camera_from_lookat_spans_the_field_of_view() {
    let c = Camera::from_lookat(v([0.0, 0.0, 0.0]), v([0.0, 0.0, -1.0]), v([0.0, 1.0, 0.0]), s(90.0), s(2.0), &k());
    let (u, w, corner) = (a(c.u), a(c.v), a(c.w));
    let want = [[4.0, 0.0, 0.0], [0.0, 2.0, 0.0], [-2.0, -1.0, -1.0]];
    for i in 0..3 {
        assert!(close(u[i], want[0][i]), "u is {u:?}");
        assert!(close(w[i], want[1][i]), "v is {w:?}");
        assert!(close(corner[i], want[2][i]), "the corner is {corner:?}");
    }
}

#[test]
fn camera_from_lookat_at_its_own_eye_has_no_basis() {
    let c = Camera::from_lookat(v([1.0, 2.0, 3.0]), v([1.0, 2.0, 3.0]), v([0.0, 1.0, 0.0]), s(90.0), s(1.0), &k());
    assert!(c.u.x().is_nan());
    assert!(c.w.z().is_nan());
}

#[test]
fn quaternion_new_keeps_vector_and_scalar_part() {
    let q = Quaternion::new(s(1.0), s(2.0), s(3.0), s(4.0));
    assert_eq!(q.0, v([1.0, 2.0, 3.0]));
    assert_eq!(q.1, s(4.0));
}
