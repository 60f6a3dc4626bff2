use std::cell::Cell;

use rayt::float3::Float3;
use rayt::kernel::Kernel;
use rayt::scalar::Scalar;
use rayt::camera::Camera;
use rayt::frame::aim;
use rayt::frame::pixel_position;
use rayt::frame::render_pixel;
use rayt::frame::rgba;
use rayt::frame::DEPTH;
use rayt::frame::OPAQUE;
use rayt::frame::SAMPLES;
use rayt::ray::Ray;
use rayt::render::DiffuseLight;
use rayt::render::Lambertian;
use rayt::render::Material;
use rayt::scene::SimpleScene;
use rayt::shape::Shape;
use rayt::shape::ShapeList;
use rayt::shape::Sphere;

/// The kernel in hardware doubles. What chance would draw is fixed: the
/// kernel hands out `uniforms` one after the other, over and over.
struct Doubles {
    uniforms: Vec<f64>,
    drawn: Cell<usize>,
}

impl Doubles {
    /// The kernel whose random points inside the unit sphere are all `jitter`.
    fn new(jitter: [f64; 3]) -> Doubles {
        Doubles::drawing(jitter.iter().map(|j| (j + 1.0) / 2.0).collect())
    }

    fn drawing(uniforms: Vec<f64>) -> Doubles {
        Doubles { uniforms, drawn: Cell::new(0) }
    }
}

fn s(x: f64) -> Scalar {
    Scalar::from_bits(x.to_bits())
}

fn f(x: Scalar) -> f64 {
    f64::from_bits(x.to_bits())
}

fn v(a: [f64; 3]) -> Float3 {
    Float3::new(s(a[0]), s(a[1]), s(a[2]))
}

impl Kernel for Doubles {
    fn sum(&self, a: Scalar, b: Scalar) -> Scalar {
        s(f(a) + f(b))
    }

    fn difference(&self, a: Scalar, b: Scalar) -> Scalar {
        s(f(a) - f(b))
    }

    fn product(&self, a: Scalar, b: Scalar) -> Scalar {
        s(f(a) * f(b))
    }

    fn quotient(&self, a: Scalar, b: Scalar) -> Scalar {
        s(f(a) / f(b))
    }

    fn root(&self, a: Scalar) -> Scalar {
        s(f(a).sqrt())
    }

    fn tangent(&self, a: Scalar) -> Scalar {
        s(f(a).tan())
    }

    fn power(&self, a: Scalar, b: Scalar) -> Scalar {
        s(f(a).powf(f(b)))
    }

    fn uniform(&self) -> Scalar {
        let i = self.drawn.get();
        self.drawn.set(i + 1);
        s(self.uniforms[i % self.uniforms.len()])
    }

    fn count(&self, n: usize) -> Scalar {
        s(n as f64)
    }
}

fn ray(origin: [f64; 3], direction: [f64; 3]) -> Ray {
    Ray::new(v(origin), v(direction))
}

fn still() -> Doubles {
    Doubles::new([0.0; 3])
}

/// An eye at (0, 0, -5) that looks along +z at the square from -1 to 1 in the plane z = -4.
fn camera() -> Camera {
    Camera::new(v([0.0, 0.0, -5.0]), v([2.0, 0.0, 0.0]), v([0.0, 2.0, 0.0]), v([-1.0, -1.0, -4.0]))
}

fn scene_of(shape: Shape, background: [f64; 3]) -> SimpleScene {
    let mut world = ShapeList::new();
    world.push(shape);
    SimpleScene { world, background: v(background) }
}

fn ball(radius: f64, material: Material) -> Shape {
    Shape::Sphere(Sphere::new(v([0.0, 0.0, 0.0]), s(radius), material))
}

#[test]
fn pixel_position_counts_row_by_row() {
    assert_eq!(pixel_position(0, 200), (0, 0));
    assert_eq!(pixel_position(199, 200), (199, 0));
    assert_eq!(pixel_position(200, 200), (0, 1));
    assert_eq!(pixel_position(39_999, 200), (199, 199));
    assert_eq!(pixel_position(7, 1), (0, 7));
}

#[test]
fn pixel_position_gives_the_index_back() {
    for width in 1..9usize {
        for index in 0..50usize {
            let (column, row) = pixel_position(index, width);
            assert!(column < width);
            assert_eq!(row * width + column, index);
        }
    }
}

#[test]
fn rgba_truncates_and_is_opaque() {
    let color = Float3::new(s(0.5 * 255.0), s(0.0), s(255.0));
    assert_eq!(rgba(color), [127, 0, 255, 255]);
}

#[test]
fn rgba_holds_channels_within_the_byte() {
    let color = Float3::new(s(40.0 * 255.0), s(-3.0), s(f64::NAN));
    assert_eq!(rgba(color), [255, 0, 0, OPAQUE]);
}

#[test]
fn rgba_agrees_with_the_cast() {
    for x in [0.0, 0.1, 0.25, 0.73, 0.999, 1.0, 1.2] {
        let scaled: f64 = x * 255.0;
        let want = scaled as u8;
        assert_eq!(rgba(Float3::full(s(scaled))), [want, want, want, 255]);
    }
}

#[test]
fn the_settings_of_a_render() {
    assert_eq!(SAMPLES, 25);
    assert_eq!(DEPTH, 25);
}

#[test]
fn aim_goes_through_the_corners_of_the_pixels() {
    assert_eq!(aim(&camera(), 0, 0, 4, 4, &still()), ray([0.0, 0.0, -5.0], [-1.0, 1.0, 1.0]));
    assert_eq!(aim(&camera(), 2, 2, 4, 4, &still()), ray([0.0, 0.0, -5.0], [0.0, 0.0, 1.0]));
    assert_eq!(aim(&camera(), 3, 3, 4, 4, &still()), ray([0.0, 0.0, -5.0], [0.5, -0.5, 1.0]));
    assert_eq!(aim(&camera(), 1, 0, 2, 1, &still()), ray([0.0, 0.0, -5.0], [0.0, 1.0, 1.0]));
}

#[test]
fn a_light_that_fills_the_view_renders_white() {
    let light = Material::DiffuseLight(DiffuseLight::new(v([1.0, 1.0, 1.0])));
    let scene = scene_of(ball(10.0, light), [0.0, 0.0, 0.0]);
    for index in 0..16 {
        assert_eq!(render_pixel(&scene, &camera(), index, 4, 4, 1, 1, &still()), [255, 255, 255, 255]);
    }
}

#[test]
fn a_bright_light_is_held_at_white() {
    let light = Material::DiffuseLight(DiffuseLight::new(v([40.0, 40.0, 40.0])));
    let scene = scene_of(ball(4.0, light), [0.0, 0.0, 0.0]);
    assert_eq!(render_pixel(&scene, &camera(), 5, 4, 4, 25, 25, &still()), [255, 255, 255, 255]);
}

#[test]
fn an_empty_view_renders_the_background() {
    let light = Material::DiffuseLight(DiffuseLight::new(v([1.0, 1.0, 1.0])));
    let scene = scene_of(ball(0.25, light), [0.5, 0.25, 0.0]);
    assert_eq!(render_pixel(&scene, &camera(), 0, 4, 4, 3, 5, &still()), [127, 63, 0, 255]);
    assert_eq!(render_pixel(&scene, &camera(), 10, 4, 4, 3, 5, &still()), [255, 255, 255, 255]);
}

#[test]
fn a_pixel_is_the_mean_of_its_samples() {
    // The ball scatters every ray along its normal into the grey background, and keeps half of it.
    let matte = Material::Lambertian(Lambertian::new(v([0.5, 0.5, 0.5])));
    let scene = scene_of(ball(4.0, matte), [0.5, 0.5, 0.5]);
    assert_eq!(render_pixel(&scene, &camera(), 10, 4, 4, 4, 1, &still()), [63, 63, 63, 255]);
    assert_eq!(render_pixel(&scene, &camera(), 10, 4, 4, 4, 0, &still()), [0, 0, 0, 255]);
}
