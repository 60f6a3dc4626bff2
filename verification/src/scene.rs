//! The scene, and the light that arrives along a ray.

use vstd::prelude::*;
use crate::float3::added;
use crate::float3::Color;
use crate::float3::Float3;
use crate::float3::multiplied;
use crate::kernel::Kernel;
use crate::probe::all_probed;
use crate::probe::Probe;
use crate::ray::Ray;
use crate::render::DiffuseLight;
use crate::render::Lambertian;
use crate::render::Material;
use crate::render::ScatterInfo;
use crate::scalar::MAX_BITS;
use crate::scalar::MINUS_ONE_BITS;
use crate::scalar::ONE_BITS;
use crate::scalar::Scalar;
use crate::shape::Box3D;
use crate::shape::box_faces;
use crate::shape::face;
use crate::shape::HitInfo;
use crate::shape::nearest;
use crate::shape::Rect;
use crate::shape::RectAxisType;
use crate::shape::Shape;
use crate::shape::ShapeList;
use crate::shape::vector;

verus! {

/// The bits of 0.001, the least ray parameter at which a hit counts: a ray
/// that leaves a surface must not hit that surface again at once.
pub const SHADOW_EPSILON_BITS: u64 = 0x3f50_624d_d2f1_a9fc;

/// The bits of 0.73, the reflectance of the white walls.
pub const WHITE_BITS: u64 = 0x3fe7_5c28_f5c2_8f5c;

/// The bits of 0.12, 0.45 and 0.15: the green wall.
pub const GREEN_R_BITS: u64 = 0x3fbe_b851_eb85_1eb8;

pub const GREEN_G_BITS: u64 = 0x3fdc_cccc_cccc_cccd;

pub const GREEN_B_BITS: u64 = 0x3fc3_3333_3333_3333;

/// The bits of 0.65 and 0.05: the red wall.
pub const RED_R_BITS: u64 = 0x3fe4_cccc_cccc_cccd;

pub const RED_GB_BITS: u64 = 0x3fa9_9999_9999_999a;

/// The bits of 40, the emission of the lamp.
pub const LAMP_BITS: u64 = 0x4044_0000_0000_0000;

/// The bits of 555, the side of the room.
pub const ROOM_BITS: u64 = 0x4081_5800_0000_0000;

/// The bits of 554, the height of the lamp.
pub const LAMP_HEIGHT_BITS: u64 = 0x4081_5000_0000_0000;

/// The bits of 213, 343, 227 and 332: the bounds of the lamp.
pub const LAMP_X0_BITS: u64 = 0x406a_a000_0000_0000;

pub const LAMP_X1_BITS: u64 = 0x4075_7000_0000_0000;

pub const LAMP_Z0_BITS: u64 = 0x406c_6000_0000_0000;

pub const LAMP_Z1_BITS: u64 = 0x4074_c000_0000_0000;

/// The bits of 130, 0 and 65: the near corner of the block.
pub const BLOCK_X0_BITS: u64 = 0x4060_4000_0000_0000;

pub const BLOCK_Y0_BITS: u64 = 0;

pub const BLOCK_Z0_BITS: u64 = 0x4050_4000_0000_0000;

/// The bits of 295, 165 and 230: the far corner of the block.
pub const BLOCK_X1_BITS: u64 = 0x4072_7000_0000_0000;

pub const BLOCK_Y1_BITS: u64 = 0x4064_a000_0000_0000;

pub const BLOCK_Z1_BITS: u64 = 0x406c_c000_0000_0000;

/// A scene: its shapes, and the colour of a ray that hits none of them.
pub struct SimpleScene {
    pub world: ShapeList,
    pub background: Color,
}

/// The diffuse material of the given reflectance.
pub open spec fn matte(r: u64, g: u64, b: u64) -> Material {
    Material::Lambertian(Lambertian { albedo: vector(r, g, b) })
}

/// The material of the white walls and of the block.
pub open spec fn white() -> Material {
    matte(WHITE_BITS, WHITE_BITS, WHITE_BITS)
}

/// The material of the green wall.
pub open spec fn green() -> Material {
    matte(GREEN_R_BITS, GREEN_G_BITS, GREEN_B_BITS)
}

/// The material of the red wall.
pub open spec fn red() -> Material {
    matte(RED_R_BITS, RED_GB_BITS, RED_GB_BITS)
}

/// The material of the lamp.
pub open spec fn glow() -> Material {
    Material::DiffuseLight(DiffuseLight { emit: vector(LAMP_BITS, LAMP_BITS, LAMP_BITS) })
}

/// The wall of the room in the given plane at `k`, from 0 to 555 both ways.
pub open spec fn wall(k: u64, axis: RectAxisType, n: Float3, material: Material) -> Shape {
    face(Scalar(0), Scalar(ROOM_BITS), Scalar(0), Scalar(ROOM_BITS), Scalar(k), axis, n, material)
}

/// The lamp in the ceiling.
pub open spec fn lamp() -> Shape {
    face(
        Scalar(LAMP_X0_BITS),
        Scalar(LAMP_X1_BITS),
        Scalar(LAMP_Z0_BITS),
        Scalar(LAMP_Z1_BITS),
        Scalar(LAMP_HEIGHT_BITS),
        RectAxisType::XZ,
        vector(0, MINUS_ONE_BITS, 0),
        glow(),
    )
}

/// The room: the green wall, the red wall, the lamp, the ceiling, the back
/// wall and the floor.
pub open spec fn room() -> Seq<Shape> {
    seq![
        wall(ROOM_BITS, RectAxisType::YZ, vector(MINUS_ONE_BITS, 0, 0), green()),
        wall(0, RectAxisType::YZ, vector(ONE_BITS, 0, 0), red()),
        lamp(),
        wall(ROOM_BITS, RectAxisType::XZ, vector(0, MINUS_ONE_BITS, 0), white()),
        wall(ROOM_BITS, RectAxisType::XY, vector(0, 0, MINUS_ONE_BITS), white()),
        wall(0, RectAxisType::XZ, vector(0, ONE_BITS, 0), white()),
    ]
}

/// `shape` is the white block that stands in the room.
pub open spec fn is_block(shape: Shape) -> bool {
    &&& shape is Box3D
    &&& shape->Box3D_0.p0 == vector(BLOCK_X0_BITS, BLOCK_Y0_BITS, BLOCK_Z0_BITS)
    &&& shape->Box3D_0.p1 == vector(BLOCK_X1_BITS, BLOCK_Y1_BITS, BLOCK_Z1_BITS)
    &&& shape->Box3D_0.shapes.objects@ == box_faces(
        shape->Box3D_0.p0,
        shape->Box3D_0.p1,
        white(),
    )
}

/// `world` is the block followed by the room.
pub open spec fn is_cornell_box(world: Seq<Shape>) -> bool {
    &&& world.len() == 7
    &&& is_block(world[0])
    &&& world.subrange(1, 7) == room()
}

/// A rectangle of the room, as a shape.
fn panel(
    x0: u64,
    x1: u64,
    y0: u64,
    y1: u64,
    k: u64,
    axis: RectAxisType,
    n: Float3,
    material: Material,
) -> (r: Shape)
    ensures
        r == face(Scalar(x0), Scalar(x1), Scalar(y0), Scalar(y1), Scalar(k), axis, n, material),
{
    Shape::Rect(
        Rect {
            x0: Scalar::from_bits(x0),
            x1: Scalar::from_bits(x1),
            y0: Scalar::from_bits(y0),
            y1: Scalar::from_bits(y1),
            k: Scalar::from_bits(k),
            axis,
            n,
            material,
        },
    )
}

/// The vector with the given bits.
fn bits3(x: u64, y: u64, z: u64) -> (r: Float3)
    ensures
        r == vector(x, y, z),
{
    Float3::new(Scalar::from_bits(x), Scalar::from_bits(y), Scalar::from_bits(z))
}

/// The diffuse material of the given reflectance.
fn diffuse(r: u64, g: u64, b: u64) -> (m: Material)
    ensures
        m == matte(r, g, b),
{
    Material::Lambertian(Lambertian::new(bits3(r, g, b)))
}

impl SimpleScene {
    /// The hit of a ray in this scene, given what the ray meets of each shape:
    /// the nearest at a parameter above 0.001.
    pub open spec fn struck(self, probes: Seq<Probe>) -> Option<HitInfo> {
        nearest(self.world.objects@, probes, Scalar(SHADOW_EPSILON_BITS), Scalar(MAX_BITS))
    }

    /// The room with the block in it, lit by the lamp in its ceiling, before
    /// a black background.
    pub fn new() -> (r: SimpleScene)
        ensures
            is_cornell_box(r.world.objects@),
            r.background == vector(0, 0, 0),
    {
        let white = diffuse(WHITE_BITS, WHITE_BITS, WHITE_BITS);
        let green = diffuse(GREEN_R_BITS, GREEN_G_BITS, GREEN_B_BITS);
        let red = diffuse(RED_R_BITS, RED_GB_BITS, RED_GB_BITS);
        let glow = Material::DiffuseLight(
            DiffuseLight::new(bits3(LAMP_BITS, LAMP_BITS, LAMP_BITS)),
        );
        let left = bits3(MINUS_ONE_BITS, 0, 0);
        let right = bits3(ONE_BITS, 0, 0);
        let down = bits3(0, MINUS_ONE_BITS, 0);
        let back = bits3(0, 0, MINUS_ONE_BITS);
        let up = bits3(0, ONE_BITS, 0);
        let side = ROOM_BITS;
        let mut world = ShapeList::new();
        world.push(
            Shape::Box3D(
                Box3D::new(
                    bits3(BLOCK_X0_BITS, BLOCK_Y0_BITS, BLOCK_Z0_BITS),
                    bits3(BLOCK_X1_BITS, BLOCK_Y1_BITS, BLOCK_Z1_BITS),
                    white,
                ),
            ),
        );
        world.push(panel(0, side, 0, side, side, RectAxisType::YZ, left, green));
        world.push(panel(0, side, 0, side, 0, RectAxisType::YZ, right, red));
        world.push(
            panel(
                LAMP_X0_BITS,
                LAMP_X1_BITS,
                LAMP_Z0_BITS,
                LAMP_Z1_BITS,
                LAMP_HEIGHT_BITS,
                RectAxisType::XZ,
                down,
                glow,
            ),
        );
        world.push(panel(0, side, 0, side, side, RectAxisType::XZ, down, white));
        world.push(panel(0, side, 0, side, side, RectAxisType::XY, back, white));
        world.push(panel(0, side, 0, side, 0, RectAxisType::XZ, up, white));
        assert(world.objects@.subrange(1, 7) =~= room());
        SimpleScene { world, background: bits3(0, 0, 0) }
    }

    /// The hit of a ray in this scene, given what the ray meets of each
    /// shape: the nearest at a parameter above 0.001, or none.
    pub fn decide(&self, probes: &Vec<Probe>) -> (r: Option<HitInfo>)
        ensures
            r == self.struck(probes@),
    {
        self.world.decide(
            probes,
            Scalar::from_bits(SHADOW_EPSILON_BITS),
            Scalar::from_bits(MAX_BITS),
        )
    }

    /// The hit of `ray` in this scene: the nearest at a parameter above
    /// 0.001, or none.
    pub fn hit<K: Kernel>(&self, ray: &Ray, kernel: &K) -> (r: Option<HitInfo>)
        ensures
            exists|probes: Seq<Probe>| #[trigger]
                all_probed(*kernel, self.world.objects@, *ray, probes) && r == self.struck(probes),
    {
        let probes = self.world.probe(ray, kernel);
        self.decide(&probes)
    }

    /// The light that arrives along `ray`, on a path with `depth`
    /// scatterings left to it.
    ///
    /// A ray that hits nothing carries the background. At a hit the path
    /// takes up what the material emits. While `depth` is above zero the
    /// material is asked to scatter; where it does, the light found along the
    /// scattered ray, with one scattering less left, is filtered by the
    /// albedo and added. With no depth left the material is not asked, and
    /// where it absorbs the ray nothing is added.
    pub fn trace<K: Kernel>(&self, ray: Ray, depth: usize, kernel: &K) -> (r: Color)
        ensures
            lit(*self, *kernel, ray, depth as nat, r),
            (forall|probes: Seq<Probe>| #[trigger]
                all_probed(*kernel, self.world.objects@, ray, probes) ==> self.struck(
                    probes,
                ).is_none()) ==> r == self.background,
            depth == 0 ==> exists|probes: Seq<Probe>| #[trigger]
                all_probed(*kernel, self.world.objects@, ray, probes) && r == unlit(
                    *self,
                    self.struck(probes),
                ),
        decreases depth,
    {
        let hit_info = self.hit(&ray, kernel);
        let color = if let Some(hit) = hit_info {
            let emitted = hit.m.emitted(&ray, &hit);
            let scatter_info = if depth > 0 {
                hit.m.scatter(&ray, &hit, kernel)
            } else {
                None
            };
            if let Some(scatter) = scatter_info {
                let incoming = self.trace(scatter.ray, depth - 1, kernel);
                let filtered = incoming.mul_each(scatter.albedo, kernel);
                let color = filtered.add(emitted, kernel);
                proof {
                    assert(lit(*self, *kernel, scatter.ray, (depth - 1) as nat, incoming));
                    assert(shade_steps(
                        *kernel,
                        incoming,
                        scatter.albedo,
                        emitted,
                        filtered,
                        color,
                    ));
                    assert(shaded(*kernel, incoming, scatter.albedo, emitted, color));
                    assert(lit_past(
                        *self,
                        *kernel,
                        (depth - 1) as nat,
                        scatter_info,
                        emitted,
                        color,
                    ));
                    assert(hit.m.scatters(*kernel, ray, hit, scatter_info));
                    assert(lit_at(*self, *kernel, ray, depth as nat, hit_info, color));
                }
                color
            } else {
                proof {
                    if depth > 0 {
                        assert(lit_past(
                            *self,
                            *kernel,
                            (depth - 1) as nat,
                            scatter_info,
                            emitted,
                            emitted,
                        ));
                        assert(hit.m.scatters(*kernel, ray, hit, scatter_info));
                    }
                    assert(lit_at(*self, *kernel, ray, depth as nat, hit_info, emitted));
                }
                emitted
            }
        } else {
            self.background
        };
        proof {
            let probes = choose|probes: Seq<Probe>| #[trigger]
                all_probed(*kernel, self.world.objects@, ray, probes) && hit_info == self.struck(
                    probes,
                );
            assert(all_probed(*kernel, self.world.objects@, ray, probes) && lit_at(
                *self,
                *kernel,
                ray,
                depth as nat,
                self.struck(probes),
                color,
            ));
        }
        color
    }
}

/// The steps to what a path carries at a surface that scatters it: the
/// light that comes in is filtered by the albedo, and what the surface emits
/// is added.
pub open spec fn shade_steps<K: Kernel>(
    kernel: K,
    incoming: Color,
    albedo: Color,
    emitted: Color,
    filtered: Color,
    color: Color,
) -> bool {
    multiplied(kernel, incoming, albedo, filtered) && added(kernel, filtered, emitted, color)
}

/// `color` is what `kernel` made of the light that a path carries at a
/// surface that scatters it: of `incoming * albedo + emitted`, component by
/// component.
pub open spec fn shaded<K: Kernel>(
    kernel: K,
    incoming: Color,
    albedo: Color,
    emitted: Color,
    color: Color,
) -> bool {
    exists|filtered: Color| #[trigger]
        shade_steps(kernel, incoming, albedo, emitted, filtered, color)
}

/// What a path carries that ends where its ray meets the scene: the
/// background where it hits nothing, and else what the material emits.
pub open spec fn unlit(scene: SimpleScene, hit: Option<HitInfo>) -> Color {
    match hit {
        None => scene.background,
        Some(h) => h.m.emission(),
    }
}

/// `color` is the light that arrives along `ray`, on a path with `depth`
/// scatterings left to it, for what `kernel` hands back on the way.
pub open spec fn lit<K: Kernel>(
    scene: SimpleScene,
    kernel: K,
    ray: Ray,
    depth: nat,
    color: Color,
) -> bool
    decreases depth, 1nat,
{
    exists|probes: Seq<Probe>| #[trigger]
        all_probed(kernel, scene.world.objects@, ray, probes) && lit_at(
            scene,
            kernel,
            ray,
            depth,
            scene.struck(probes),
            color,
        )
}

/// `color` is the light that arrives along `ray`, given what the ray hits:
/// with nothing hit or no depth left, what the path carries where it ends;
/// else what it carries past what the material scatters.
pub open spec fn lit_at<K: Kernel>(
    scene: SimpleScene,
    kernel: K,
    ray: Ray,
    depth: nat,
    hit: Option<HitInfo>,
    color: Color,
) -> bool
    decreases depth, 0nat,
{
    match hit {
        Some(h) if depth > 0 => exists|scatter: Option<ScatterInfo>| #[trigger]
            h.m.scatters(kernel, ray, h, scatter) && lit_past(
                scene,
                kernel,
                (depth - 1) as nat,
                scatter,
                h.m.emission(),
                color,
            ),
        _ => color == unlit(scene, hit),
    }
}

/// `color` is what a path carries past a surface that emits `emitted`: where
/// the surface absorbs the ray, `emitted`; where it scatters the ray, what
/// the kernel makes of the light that arrives along the scattered ray, of
/// the albedo and of `emitted`.
pub open spec fn lit_past<K: Kernel>(
    scene: SimpleScene,
    kernel: K,
    depth: nat,
    scatter: Option<ScatterInfo>,
    emitted: Color,
    color: Color,
) -> bool
    decreases depth, 2nat,
{
    match scatter {
        Some(s) => exists|incoming: Color|
            lit(scene, kernel, s.ray, depth, incoming) && #[trigger] shaded(
                kernel,
                incoming,
                s.albedo,
                emitted,
                color,
            ),
        None => color == emitted,
    }
}

/// A light is seen as it emits, whatever the depth: where `ray` cannot but
/// hit the light, the light that arrives along it is the emission.
pub proof fn a_light_is_seen_as_it_emits<K: Kernel>(
    scene: SimpleScene,
    kernel: K,
    ray: Ray,
    depth: nat,
    light: DiffuseLight,
    color: Color,
)
    requires
        lit(scene, kernel, ray, depth, color),
        forall|probes: Seq<Probe>| #[trigger]
            all_probed(kernel, scene.world.objects@, ray, probes) ==> (scene.struck(
                probes,
            ) matches Some(h) && h.m == Material::DiffuseLight(light)),
    ensures
        color == light.emit,
{
    let probes = choose|probes: Seq<Probe>| #[trigger]
        all_probed(kernel, scene.world.objects@, ray, probes) && lit_at(
            scene,
            kernel,
            ray,
            depth,
            scene.struck(probes),
            color,
        );
    let h = scene.struck(probes).unwrap();
    if depth > 0 {
        let scatter = choose|scatter: Option<ScatterInfo>| #[trigger]
            h.m.scatters(kernel, ray, h, scatter) && lit_past(
                scene,
                kernel,
                (depth - 1) as nat,
                scatter,
                h.m.emission(),
                color,
            );
        assert(scatter.is_none());
    }
}

} // verus!
