//! The frame: the ray through a pixel, the samples gathered for it, and the
//! bytes it is stored as.

use vstd::prelude::*;
use crate::camera::Camera;
use crate::camera::sighted;
use crate::float3::added;
use crate::float3::Color;
use crate::float3::divided;
use crate::float3::Float3;
use crate::float3::stretched;
use crate::kernel::is_count;
use crate::kernel::is_difference;
use crate::kernel::is_product;
use crate::kernel::is_quotient;
use crate::kernel::is_sum;
use crate::kernel::Kernel;
use crate::probe::all_probed;
use crate::probe::Probe;
use crate::ray::Ray;
use crate::render::DiffuseLight;
use crate::render::Material;
use crate::scalar::ONE_BITS;
use crate::scalar::Scalar;
use crate::scalar::ZERO_BITS;
use crate::scene::a_light_is_seen_as_it_emits;
use crate::scene::lit;
use crate::scene::SimpleScene;
use crate::value::full_scale_is_the_full_byte;

verus! {

/// The number of paths traced for each pixel.
pub const SAMPLES: usize = 25;

/// The number of scatterings left to each path.
pub const DEPTH: usize = 25;

/// The alpha byte of every pixel: opaque.
pub const OPAQUE: u8 = 255;

/// The column and the row of the pixel at `index` of a frame that is stored
/// row by row, `width` pixels to the row.
pub fn pixel_position(index: usize, width: usize) -> (r: (usize, usize))
    requires
        width > 0,
    ensures
        r.0 == index % width,
        r.1 == index / width,
        r.0 < width,
        index == r.1 * width + r.0,
{
    proof {
        vstd::arithmetic::div_mod::lemma_fundamental_div_mod(index as int, width as int);
        assert(width * (index / width) == (index / width) * width) by (nonlinear_arith);
    }
    (index % width, index / width)
}

/// The four bytes of a pixel: red, green, blue and alpha. `color` holds the
/// channels on the scale of 0 to 255; each is cut down to a whole number and
/// held within that range, and the pixel is opaque.
pub fn rgba(color: Color) -> (r: [u8; 4])
    ensures
        r[0] == color.x.byte(),
        r[1] == color.y.byte(),
        r[2] == color.z.byte(),
        r[3] == OPAQUE,
{
    [color.x.to_u8(), color.y.to_u8(), color.z.to_u8(), OPAQUE]
}

/// The bits of 255, the scale of a byte.
pub const BYTE_SCALE_BITS: u64 = 0x406f_e000_0000_0000;

/// The steps to the ray through a pixel: the column over the width is how
/// far to the right the pixel lies, and one less the row over the height how
/// far up, since the rows are counted from the top.
pub open spec fn aim_steps<K: Kernel>(
    kernel: K,
    camera: Camera,
    column: usize,
    row: usize,
    width: usize,
    height: usize,
    counts: (Scalar, Scalar, Scalar, Scalar),
    u: Scalar,
    down: Scalar,
    v: Scalar,
    ray: Ray,
) -> bool {
    &&& is_count(kernel, column, counts.0)
    &&& is_count(kernel, width, counts.1)
    &&& is_quotient(kernel, counts.0, counts.1, u)
    &&& is_count(kernel, row, counts.2)
    &&& is_count(kernel, height, counts.3)
    &&& is_quotient(kernel, counts.2, counts.3, down)
    &&& is_difference(kernel, Scalar(ONE_BITS), down, v)
    &&& sighted(kernel, camera, u, v, ray)
}

/// `ray` is what `kernel` made of the ray from the eye through the pixel in
/// the given column and row of a frame of the given size.
pub open spec fn aimed<K: Kernel>(
    kernel: K,
    camera: Camera,
    column: usize,
    row: usize,
    width: usize,
    height: usize,
    ray: Ray,
) -> bool {
    exists|counts: (Scalar, Scalar, Scalar, Scalar), u: Scalar, down: Scalar, v: Scalar| #[trigger]
        aim_steps(kernel, camera, column, row, width, height, counts, u, down, v, ray)
}

/// `sum` is what `kernel` gathered of `n` samples of the light that arrives
/// along `ray`, starting from black.
pub open spec fn gathered<K: Kernel>(
    scene: SimpleScene,
    kernel: K,
    ray: Ray,
    depth: nat,
    n: nat,
    sum: Color,
) -> bool
    decreases n,
{
    if n == 0 {
        sum == Float3::splat(Scalar(ZERO_BITS))
    } else {
        exists|before: Color, sample: Color|
            gathered(scene, kernel, ray, depth, (n - 1) as nat, before) && lit(
                scene,
                kernel,
                ray,
                depth,
                sample,
            ) && #[trigger] added(kernel, before, sample, sum)
    }
}

/// The steps from the sum of the samples to the bytes of the pixel: the
/// mean is the sum over the number of samples; it is brought into `[0, 1]`,
/// scaled to 255 and cut down to bytes, and the pixel is opaque.
pub open spec fn develop_steps<K: Kernel>(
    kernel: K,
    sum: Color,
    samples: usize,
    count: Scalar,
    mean: Color,
    bright: Color,
    pixel: [u8; 4],
) -> bool {
    &&& is_count(kernel, samples, count)
    &&& divided(kernel, sum, count, mean)
    &&& stretched(kernel, mean.clamped(), Scalar(BYTE_SCALE_BITS), bright)
    &&& pixel[0] == bright.x.byte()
    &&& pixel[1] == bright.y.byte()
    &&& pixel[2] == bright.z.byte()
    &&& pixel[3] == OPAQUE
}

/// `pixel` holds the bytes of the mean of the samples whose sum is `sum`.
pub open spec fn developed<K: Kernel>(
    kernel: K,
    sum: Color,
    samples: usize,
    pixel: [u8; 4],
) -> bool {
    exists|count: Scalar, mean: Color, bright: Color| #[trigger]
        develop_steps(kernel, sum, samples, count, mean, bright, pixel)
}

/// `pixel` holds the bytes of the pixel in the given column and row: the
/// kernel aims a ray through the pixel and gathers `samples` samples of the
/// light that arrives along it, and `pixel` holds the bytes of their mean.
pub open spec fn rendered<K: Kernel>(
    scene: SimpleScene,
    camera: Camera,
    kernel: K,
    column: usize,
    row: usize,
    width: usize,
    height: usize,
    samples: usize,
    depth: usize,
    pixel: [u8; 4],
) -> bool {
    exists|ray: Ray, sum: Color|
        #![trigger
            aimed(kernel, camera, column, row, width, height, ray),
            developed(kernel, sum, samples, pixel),
        ]
        {
            &&& aimed(kernel, camera, column, row, width, height, ray)
            &&& gathered(scene, kernel, ray, depth as nat, samples as nat, sum)
            &&& developed(kernel, sum, samples, pixel)
        }
}

/// The ray from the eye through the pixel in the given column and row of a
/// frame of the given size. The rows are counted from the top.
pub fn aim<K: Kernel>(
    camera: &Camera,
    column: usize,
    row: usize,
    width: usize,
    height: usize,
    kernel: &K,
) -> (r: Ray)
    ensures
        aimed(*kernel, *camera, column, row, width, height, r),
{
    let columns = kernel.count(column);
    let across = kernel.count(width);
    let u = kernel.quotient(columns, across);
    let rows = kernel.count(row);
    let along = kernel.count(height);
    let down = kernel.quotient(rows, along);
    let v = kernel.difference(Scalar::one(), down);
    let r = camera.ray(u, v, kernel);
    assert(aim_steps(
        *kernel,
        *camera,
        column,
        row,
        width,
        height,
        (columns, across, rows, along),
        u,
        down,
        v,
        r,
    ));
    r
}

/// The bytes of the pixel at `index` of a frame of the given size: the mean
/// of `samples` paths through the pixel, each with `depth` scatterings left
/// to it, brought into `[0, 1]` and stored as opaque red, green and blue.
pub fn render_pixel<K: Kernel>(
    scene: &SimpleScene,
    camera: &Camera,
    index: usize,
    width: usize,
    height: usize,
    samples: usize,
    depth: usize,
    kernel: &K,
) -> (r: [u8; 4])
    requires
        width > 0,
    ensures
        rendered(
            *scene,
            *camera,
            *kernel,
            (index % width) as usize,
            (index / width) as usize,
            width,
            height,
            samples,
            depth,
            r,
        ),
        r[3] == OPAQUE,
{
    let (column, row) = pixel_position(index, width);
    let ray = aim(camera, column, row, width, height, kernel);
    let mut sum = Float3::zero();
    let mut i: usize = 0;
    while i < samples
        invariant
            i <= samples,
            gathered(*scene, *kernel, ray, depth as nat, i as nat, sum),
        decreases samples - i,
    {
        let sample = scene.trace(ray, depth, kernel);
        sum.add_assign(sample, kernel);
        i += 1;
    }
    let count = kernel.count(samples);
    let mean = sum.div(count, kernel);
    let bright = mean.saturate().mul(Scalar::from_bits(BYTE_SCALE_BITS), kernel);
    let pixel = rgba(bright);
    proof {
        assert(develop_steps(*kernel, sum, samples, count, mean, bright, pixel));
        assert(developed(*kernel, sum, samples, pixel));
        assert(aimed(*kernel, *camera, column, row, width, height, ray));
    }
    pixel
}

/// The kernel is exact where nothing is to be rounded: zero plus one is one,
/// the count of one is one, one over one is one, and one times 255 is 255.
pub open spec fn keeps_one<K: Kernel>(kernel: K) -> bool {
    &&& forall|r: Scalar| #[trigger]
        is_sum(kernel, Scalar(ZERO_BITS), Scalar(ONE_BITS), r) ==> r == Scalar(ONE_BITS)
    &&& forall|r: Scalar| #[trigger] is_count(kernel, 1, r) ==> r == Scalar(ONE_BITS)
    &&& forall|r: Scalar| #[trigger]
        is_quotient(kernel, Scalar(ONE_BITS), Scalar(ONE_BITS), r) ==> r == Scalar(ONE_BITS)
    &&& forall|r: Scalar| #[trigger]
        is_product(kernel, Scalar(ONE_BITS), Scalar(BYTE_SCALE_BITS), r) ==> r == Scalar(
            BYTE_SCALE_BITS,
        )
}

/// A view that is full of a light that emits one in every channel renders
/// white: where every ray cannot but hit the light, one sample gives the
/// pixel the bytes 255, 255, 255 and 255, whatever the depth, for a kernel
/// that is exact where nothing is to be rounded.
pub proof fn a_view_full_of_light_renders_white<K: Kernel>(
    scene: SimpleScene,
    camera: Camera,
    kernel: K,
    column: usize,
    row: usize,
    width: usize,
    height: usize,
    depth: usize,
    pixel: [u8; 4],
)
    requires
        keeps_one(kernel),
        rendered(scene, camera, kernel, column, row, width, height, 1, depth, pixel),
        forall|ray: Ray, probes: Seq<Probe>| #[trigger]
            all_probed(kernel, scene.world.objects@, ray, probes) ==> (scene.struck(
                probes,
            ) matches Some(h) && h.m == Material::DiffuseLight(
                DiffuseLight { emit: Float3::splat(Scalar(ONE_BITS)) },
            )),
    ensures
        pixel[0] == 255,
        pixel[1] == 255,
        pixel[2] == 255,
        pixel[3] == 255,
{
    reveal_with_fuel(gathered, 3);
    let one = Float3::splat(Scalar(ONE_BITS));
    let (ray, sum) = choose|ray: Ray, sum: Color|
        #![trigger
            aimed(kernel, camera, column, row, width, height, ray),
            developed(kernel, sum, 1, pixel),
        ]
        {
            &&& aimed(kernel, camera, column, row, width, height, ray)
            &&& gathered(scene, kernel, ray, depth as nat, 1, sum)
            &&& developed(kernel, sum, 1, pixel)
        };
    let (before, sample) = choose|before: Color, sample: Color|
        gathered(scene, kernel, ray, depth as nat, 0, before) && lit(
            scene,
            kernel,
            ray,
            depth as nat,
            sample,
        ) && #[trigger] added(kernel, before, sample, sum);
    a_light_is_seen_as_it_emits(
        scene,
        kernel,
        ray,
        depth as nat,
        DiffuseLight { emit: one },
        sample,
    );
    assert(sum == one);
    let (count, mean, bright) = choose|count: Scalar, mean: Color, bright: Color| #[trigger]
        develop_steps(kernel, sum, 1, count, mean, bright, pixel);
    assert(mean == one);
    assert(mean.clamped() == one);
    assert(bright == Float3::splat(Scalar(BYTE_SCALE_BITS)));
    full_scale_is_the_full_byte();
}

} // verus!
