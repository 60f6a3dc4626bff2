use std::cell::Cell;

use rayt::float3::Float3;
use rayt::kernel::Kernel;
use rayt::scalar::Scalar;
use rayt::ray::Ray;
use rayt::render::DiffuseLight;
use rayt::render::Lambertian;
use rayt::render::Material;
use rayt::render::Metal;
use rayt::scene::SimpleScene;
use rayt::scene::SHADOW_EPSILON_BITS;
use rayt::shape::Rect;
use rayt::shape::RectAxisType;
use rayt::shape::Shape;
use rayt::shape::ShapeList;
use rayt::shape::Sphere;

/// The kernel in hardware doubles. What chance would draw is fixed: the
/// kernel hands out `uniforms` one after the other, over and over.
struct Doubles {
    uniforms: Vec<f64>,
    drawn: Cell<usize>,
}

impl Doubles {
    /// The kernel whose random points inside the unit sphere are all `jitter`.
    fn new(jitter: [f64; 3]) -> Doubles {
        Doubles::drawing(jitter.iter().map(|j| (j + 1.0) / 2.0).collect())
    }

    fn drawing(uniforms: Vec<f64>) -> Doubles {
        Doubles { uniforms, drawn: Cell::new(0) }
    }
}

fn s(x: f64) -> Scalar {
    Scalar::from_bits(x.to_bits())
}

fn f(x: Scalar) -> f64 {
    f64::from_bits(x.to_bits())
}

fn v(a: [f64; 3]) -> Float3 {
    Float3::new(s(a[0]), s(a[1]), s(a[2]))
}

impl Kernel for Doubles {
    fn sum(&self, a: Scalar, b: Scalar) -> Scalar {
        s(f(a) + f(b))
    }

    fn difference(&self, a: Scalar, b: Scalar) -> Scalar {
        s(f(a) - f(b))
    }

    fn product(&self, a: Scalar, b: Scalar) -> Scalar {
        s(f(a) * f(b))
    }

    fn quotient(&self, a: Scalar, b: Scalar) -> Scalar {
        s(f(a) / f(b))
    }

    fn root(&self, a: Scalar) -> Scalar {
        s(f(a).sqrt())
    }

    fn tangent(&self, a: Scalar) -> Scalar {
        s(f(a).tan())
    }

    fn power(&self, a: Scalar, b: Scalar) -> Scalar {
        s(f(a).powf(f(b)))
    }

    fn uniform(&self) -> Scalar {
        let i = self.drawn.get();
        self.drawn.set(i + 1);
        s(self.uniforms[i % self.uniforms.len()])
    }

    fn count(&self, n: usize) -> Scalar {
        s(n as f64)
    }
}

fn ray(origin: [f64; 3], direction: [f64; 3]) -> Ray {
    Ray::new(v(origin), v(direction))
}

fn still() -> Doubles {
    Doubles::new([0.0; 3])
}

fn a(p: Float3) -> [f64; 3] {
    [f(p.x()), f(p.y()), f(p.z())]
}

fn scene_of(shapes: Vec<Shape>, background: [f64; 3]) -> SimpleScene {
    let mut world = ShapeList::new();
    for shape in shapes {
        world.push(shape);
    }
    SimpleScene { world, background: v(background) }
}

fn ball(center: [f64; 3], material: Material) -> Shape {
    Shape::Sphere(Sphere::new(v(center), s(1.0), material))
}

fn matte(albedo: [f64; 3]) -> Material {
    Material::Lambertian(Lambertian::new(v(albedo)))
}

fn glow(emit: [f64; 3]) -> Material {
    Material::DiffuseLight(DiffuseLight::new(v(emit)))
}

fn eye() -> Ray {
    ray([0.0, 0.0, -5.0], [0.0, 0.0, 1.0])
}

fn aside() -> Ray {
    ray([0.0, 0.0, -5.0], [1.0, 0.0, 0.0])
}

fn face(shape: &Shape) -> Rect {
    match shape {
        Shape::Rect(r) => *r,
        _ => panic!("not a rectangle"),
    }
}

fn albedo(material: Material) -> [f64; 3] {
    match material {
        Material::Lambertian(m) => a(m.albedo),
        _ => panic!("not diffuse"),
    }
}

#[test]
fn shadow_epsilon_is_a_thousandth() {
    assert_eq!(SHADOW_EPSILON_BITS, 0.001f64.to_bits());
}

#[test]
fn new_scene_is_the_room_with_the_block() {
    let scene = SimpleScene::new();
    assert_eq!(scene.background, v([0.0, 0.0, 0.0]));
    assert_eq!(scene.world.objects.len(), 7);
    match &scene.world.objects[0] {
        Shape::Box3D(block) => {
            assert_eq!(block.p0, v([130.0, 0.0, 65.0]));
            assert_eq!(block.p1, v([295.0, 165.0, 230.0]));
            assert_eq!(block.shapes.objects.len(), 6);
            for shape in &block.shapes.objects {
                assert_eq!(albedo(face(shape).material), [0.73, 0.73, 0.73]);
            }
        }
        _ => panic!("the block comes first"),
    }
    let room = [0.0, 555.0, 0.0, 555.0];
    let want = [
        (room, 555.0, [-1.0, 0.0, 0.0], Some([0.12, 0.45, 0.15])),
        (room, 0.0, [1.0, 0.0, 0.0], Some([0.65, 0.05, 0.05])),
        ([213.0, 343.0, 227.0, 332.0], 554.0, [0.0, -1.0, 0.0], None),
        (room, 555.0, [0.0, -1.0, 0.0], Some([0.73, 0.73, 0.73])),
        (room, 555.0, [0.0, 0.0, -1.0], Some([0.73, 0.73, 0.73])),
        (room, 0.0, [0.0, 1.0, 0.0], Some([0.73, 0.73, 0.73])),
    ];
    for (i, (bounds, k, n, colour)) in want.iter().enumerate() {
        let r = face(&scene.world.objects[i + 1]);
        assert_eq!([f(r.x0), f(r.x1), f(r.y0), f(r.y1)], *bounds, "bounds of wall {i}");
        assert_eq!(f(r.k), *k, "plane of wall {i}");
        assert_eq!(r.n, v(*n), "normal of wall {i}");
        match colour {
            Some(c) => assert_eq!(albedo(r.material), *c, "colour of wall {i}"),
            None => match r.material {
                Material::DiffuseLight(lamp) => assert_eq!(lamp.emit, v([40.0, 40.0, 40.0])),
                _ => panic!("the lamp emits"),
            },
        }
    }
    assert!(matches!(face(&scene.world.objects[1]).axis, RectAxisType::YZ));
    assert!(matches!(face(&scene.world.objects[2]).axis, RectAxisType::YZ));
    assert!(matches!(face(&scene.world.objects[3]).axis, RectAxisType::XZ));
    assert!(matches!(face(&scene.world.objects[4]).axis, RectAxisType::XZ));
    assert!(matches!(face(&scene.world.objects[5]).axis, RectAxisType::XY));
    assert!(matches!(face(&scene.world.objects[6]).axis, RectAxisType::XZ));
}

#[test]
fn ray_that_misses_every_shape_carries_the_background() {
    let scene = scene_of(vec![ball([0.0, 0.0, 0.0], matte([0.5, 0.5, 0.5]))], [0.1, 0.2, 0.3]);
    for depth in [0, 1, 25] {
        let kernel = still();
        assert!(scene.hit(&aside(), &kernel).is_none());
        assert_eq!(scene.trace(aside(), depth, &kernel), v([0.1, 0.2, 0.3]));
        assert_eq!(kernel.drawn.get(), 0);
    }
}

#[test]
fn ray_that_leaves_the_room_through_the_open_front_carries_black() {
    let scene = SimpleScene::new();
    let out = ray([278.0, 278.0, 100.0], [0.0, 0.0, -1.0]);
    assert_eq!(scene.trace(out, 25, &still()), v([0.0, 0.0, 0.0]));
}

#[test]
fn with_no_depth_left_a_hit_carries_what_the_material_emits() {
    let lit = scene_of(vec![ball([0.0, 0.0, 0.0], glow([3.0, 2.0, 1.0]))], [0.1, 0.2, 0.3]);
    let kernel = still();
    assert_eq!(lit.trace(eye(), 0, &kernel), v([3.0, 2.0, 1.0]));
    let dark = scene_of(vec![ball([0.0, 0.0, 0.0], matte([0.5, 0.5, 0.5]))], [0.1, 0.2, 0.3]);
    assert_eq!(dark.trace(eye(), 0, &kernel), v([0.0, 0.0, 0.0]));
    assert_eq!(kernel.drawn.get(), 0);
}

#[test]
fn a_light_ends_the_path_at_any_depth() {
    let scene = SimpleScene::new();
    let up = ray([278.0, 278.0, 279.5], [0.0, 1.0, 0.0]);
    let kernel = still();
    assert_eq!(scene.trace(up, 25, &kernel), v([40.0, 40.0, 40.0]));
    assert_eq!(kernel.drawn.get(), 0);
}

#[test]
fn a_diffuse_hit_filters_what_the_scattered_ray_finds() {
    // The ray hits the ball at (0, 0, -1); with no jitter it is scattered along the normal, back to the lamp.
    let shapes = vec![ball([0.0, 0.0, 0.0], matte([0.5, 0.25, 0.125])), ball([0.0, 0.0, -9.0], glow([4.0, 4.0, 4.0]))];
    let scene = scene_of(shapes, [0.0, 0.0, 0.0]);
    let kernel = still();
    assert_eq!(scene.trace(eye(), 1, &kernel), v([2.0, 1.0, 0.5]));
    assert_eq!(kernel.drawn.get(), 3);
}

#[test]
fn a_scattered_ray_that_escapes_finds_the_background() {
    let scene = scene_of(vec![ball([0.0, 0.0, 0.0], matte([0.5, 0.25, 0.125]))], [0.8, 0.8, 0.8]);
    assert_eq!(scene.trace(eye(), 25, &still()), v([0.4, 0.2, 0.1]));
}

#[test]
fn a_path_scatters_no_more_often_than_its_depth() {
    // Two facing mirrors: the ray would bounce between them for ever.
    let mirror = |z: f64| ball([0.0, 0.0, z], Material::Metal(Metal::new(v([1.0, 1.0, 1.0]), s(0.0))));
    let scene = scene_of(vec![mirror(0.0), mirror(-10.0)], [0.3, 0.3, 0.3]);
    for depth in [0, 1, 2, 7, 25] {
        let kernel = still();
        assert_eq!(scene.trace(eye(), depth, &kernel), v([0.0, 0.0, 0.0]));
        assert_eq!(kernel.drawn.get(), 3 * depth);
    }
}

#[test]
fn an_absorbed_ray_carries_what_the_material_emits() {
    let steel = Material::Metal(Metal::new(v([0.9, 0.9, 0.9]), s(1.0)));
    let scene = scene_of(vec![ball([0.0, 0.0, 0.0], steel)], [0.1, 0.2, 0.3]);
    // The ray grazes the ball near its top; the jitter pushes the mirrored ray into the ball.
    let grazing = ray([0.0, 0.99, -5.0], [0.0, 0.0, 1.0]);
    let inwards = Doubles::new([0.0, -0.5, 0.0]);
    assert_eq!(scene.trace(grazing, 25, &inwards), v([0.0, 0.0, 0.0]));
    assert_eq!(inwards.drawn.get(), 3);
    assert_eq!(scene.trace(eye(), 25, &still()), v([0.1 * 0.9, 0.2 * 0.9, 0.3 * 0.9]));
}

#[test]
fn a_hit_closer_than_the_shadow_epsilon_does_not_count() {
    let floor = Rect {
        x0: s(-1.0),
        x1: s(1.0),
        y0: s(-1.0),
        y1: s(1.0),
        k: s(0.0),
        axis: RectAxisType::XZ,
        n: v([0.0, 1.0, 0.0]),
        material: matte([0.5, 0.5, 0.5]),
    };
    let scene = scene_of(vec![Shape::Rect(floor)], [0.1, 0.2, 0.3]);
    let down = [0.0, -1.0, 0.0];
    assert!(scene.hit(&ray([0.0, 0.0005, 0.0], down), &still()).is_none());
    assert!(scene.hit(&ray([0.0, 0.001, 0.0], down), &still()).is_none());
    assert!(scene.hit(&ray([0.0, 0.002, 0.0], down), &still()).is_some());
}

#[test]
fn the_block_hides_the_floor_behind_it() {
    let scene = SimpleScene::new();
    let down = ray([200.0, 400.0, 150.0], [0.0, -1.0, 0.0]);
    let hit = scene.hit(&down, &still()).expect("the block is below");
    assert_eq!(hit.t, s(235.0));
    assert_eq!(hit.p, v([200.0, 165.0, 150.0]));
    assert_eq!(hit.n, v([0.0, 1.0, 0.0]));
    let probes = scene.world.probe(&down, &still());
    assert_eq!(scene.decide(&probes).expect("the block is below").t, s(235.0));
}

/// The white room of side two round the origin, closed on all sides, with a lamp below its ceiling.
fn closed_room() -> SimpleScene {
    let white = matte([0.75, 0.5, 0.25]);
    let lamp = Rect {
        x0: s(-0.5),
        x1: s(0.5),
        y0: s(-0.5),
        y1: s(0.5),
        k: s(0.875),
        axis: RectAxisType::XZ,
        n: v([0.0, -1.0, 0.0]),
        material: glow([4.0, 4.0, 4.0]),
    };
    let room = rayt::shape::Box3D::new(v([-1.0, -1.0, -1.0]), v([1.0, 1.0, 1.0]), white);
    scene_of(vec![Shape::Rect(lamp), Shape::Box3D(room)], [9.0, 9.0, 9.0])
}

#[test]
fn nothing_leaves_a_closed_room() {
    let scene = closed_room();
    for direction in [[1.0, 0.0, 0.0], [0.0, -1.0, 0.0], [0.3, 0.2, -1.0], [-1.0, 0.5, 0.25]] {
        assert!(scene.hit(&ray([0.0, 0.0, 0.0], direction), &still()).is_some());
    }
}

#[test]
fn more_depth_never_darkens_a_closed_room() {
    let scene = closed_room();
    let mut lit = 0;
    for jitter in [[0.0, 0.0, 0.0], [0.25, 0.5, -0.25], [-0.5, 0.25, 0.5], [0.5, -0.5, 0.5]] {
        for direction in [[1.0, 0.25, 0.5], [0.0, -1.0, 0.0], [0.3, 0.2, -1.0], [-1.0, 0.5, 0.25]] {
            let mut before = [0.0; 3];
            for depth in 0..12 {
                let now = a(scene.trace(ray([0.0, 0.0, 0.0], direction), depth, &Doubles::new(jitter)));
                for i in 0..3 {
                    assert!(now[i] >= before[i], "{:?} after {:?} at depth {depth}", now, before);
                }
                before = now;
            }
            if before[0] > 0.0 {
                lit += 1;
            }
        }
    }
    assert!(lit > 0, "some path finds the lamp");
}

#[test]
fn every_wall_of_the_room_gives_the_normal_that_points_into_it() {
    let scene = SimpleScene::new();
    let middle = [278.0, 278.0, 278.0];
    let walls = [
        ([1.0, 0.0, 0.0], [-1.0, 0.0, 0.0]),
        ([-1.0, 0.0, 0.0], [1.0, 0.0, 0.0]),
        ([0.0, 0.0, 1.0], [0.0, 0.0, -1.0]),
        ([0.5, -1.0, 0.5], [0.0, 1.0, 0.0]),
        ([0.5, 1.0, 0.5], [0.0, -1.0, 0.0]),
    ];
    for (towards, normal) in walls {
        let hit = scene.hit(&ray(middle, towards), &still()).expect("the room has a wall there");
        assert_eq!(hit.n, v(normal), "towards {towards:?}");
    }
}

#[test]
fn the_block_gives_the_normals_that_point_out_of_it() {
    let scene = SimpleScene::new();
    let front = scene.hit(&ray([200.0, 100.0, 0.0], [0.0, 0.0, 1.0]), &still()).expect("the block is ahead");
    assert_eq!(front.t, s(65.0));
    assert_eq!(front.n, v([0.0, 0.0, -1.0]));
    let side = scene.hit(&ray([0.0, 100.0, 100.0], [1.0, 0.0, 0.0]), &still()).expect("the block is aside");
    assert_eq!(side.t, s(130.0));
    assert_eq!(side.n, v([-1.0, 0.0, 0.0]));
}

#[test]
fn a_path_carries_no_less_than_where_it_first_hits() {
    let scene = closed_room();
    for jitter in [[0.0, 0.0, 0.0], [0.25, 0.5, -0.25], [-0.5, 0.25, 0.5]] {
        for direction in [[1.0, 0.25, 0.5], [0.0, 1.0, 0.0], [0.1, 1.0, -0.2], [-1.0, 0.5, 0.25]] {
            let floor = a(scene.trace(ray([0.0, 0.0, 0.0], direction), 0, &Doubles::new(jitter)));
            for depth in [1, 2, 5, 25] {
                let now = a(scene.trace(ray([0.0, 0.0, 0.0], direction), depth, &Doubles::new(jitter)));
                for i in 0..3 {
                    assert!(now[i] >= floor[i]);
                }
            }
        }
    }
    assert_eq!(scene.trace(ray([0.0, 0.0, 0.0], [0.0, 1.0, 0.0]), 7, &still()), v([4.0, 4.0, 4.0]));
}
