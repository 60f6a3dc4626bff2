//! The camera: an eye and the image plane it looks at.

use vstd::prelude::*;
use crate::float3::added;
use crate::float3::crossed;
use crate::float3::normalized;
use crate::float3::Point3;
use crate::float3::stretched;
use crate::float3::subtracted;
use crate::float3::Vector3;
use crate::kernel::is_product;
use crate::kernel::is_tangent;
use crate::kernel::Kernel;
use crate::ray::Ray;
use crate::scalar::Scalar;
use crate::scalar::TWO_BITS;

verus! {

/// An eye at `origin` and an image plane: `w` is the plane's lower left
/// corner, `u` and `v` span it horizontally and vertically.
pub struct Camera {
    pub origin: Point3,
    pub u: Vector3,
    pub v: Vector3,
    pub w: Vector3,
}

/// The bits of one half.
pub const HALF_BITS: u64 = 0x3fe0_0000_0000_0000;

/// The bits of the number of radians in one degree.
pub const RADIANS_PER_DEGREE_BITS: u64 = 0x3f91_df46_a252_9d39;

/// The half extents of the image plane at distance one from the eye: with
/// `vfov` the vertical field of view in degrees, the half height is the
/// tangent of half of it, and the half width is the half height times
/// `aspect`.
pub open spec fn extent_steps<K: Kernel>(
    kernel: K,
    vfov: Scalar,
    aspect: Scalar,
    radians: Scalar,
    half: Scalar,
    halfh: Scalar,
    halfw: Scalar,
) -> bool {
    &&& is_product(kernel, vfov, Scalar(RADIANS_PER_DEGREE_BITS), radians)
    &&& is_product(kernel, radians, Scalar(HALF_BITS), half)
    &&& is_tangent(kernel, half, halfh)
    &&& is_product(kernel, aspect, halfh, halfw)
}

/// The basis of the camera: `w` points from the target back to the eye, `x`
/// to the right and `y` up, each of unit length.
pub open spec fn basis_steps<K: Kernel>(
    kernel: K,
    origin: Point3,
    lookat: Point3,
    vup: Vector3,
    back: Vector3,
    right: Vector3,
    up: Vector3,
    w: Vector3,
    x: Vector3,
    y: Vector3,
) -> bool {
    &&& subtracted(kernel, origin, lookat, back)
    &&& normalized(kernel, back, w)
    &&& crossed(kernel, vup, w, right)
    &&& normalized(kernel, right, x)
    &&& crossed(kernel, w, x, up)
    &&& normalized(kernel, up, y)
}

/// The image plane: it lies one unit before the eye; `xw` and `yh` reach
/// from its middle to its right and its upper edge, `u` and `v` span it, and
/// `corner` is its lower left corner.
pub open spec fn plane_steps<K: Kernel>(
    kernel: K,
    origin: Point3,
    halfw: Scalar,
    halfh: Scalar,
    w: Vector3,
    x: Vector3,
    y: Vector3,
    xw: Vector3,
    yh: Vector3,
    left: Point3,
    low: Point3,
    camera: Camera,
) -> bool {
    &&& stretched(kernel, x, halfw, xw)
    &&& stretched(kernel, y, halfh, yh)
    &&& stretched(kernel, xw, Scalar(TWO_BITS), camera.u)
    &&& stretched(kernel, yh, Scalar(TWO_BITS), camera.v)
    &&& subtracted(kernel, origin, xw, left)
    &&& subtracted(kernel, left, yh, low)
    &&& subtracted(kernel, low, w, camera.w)
    &&& camera.origin == origin
}

/// `camera` is what `kernel` made of an eye at `origin` that looks at
/// `lookat`, with `vup` pointing up, a vertical field of view of `vfov`
/// degrees and the given ratio of width to height.
pub open spec fn looking<K: Kernel>(
    kernel: K,
    origin: Point3,
    lookat: Point3,
    vup: Vector3,
    vfov: Scalar,
    aspect: Scalar,
    camera: Camera,
) -> bool {
    exists|
        radians: Scalar,
        half: Scalar,
        halfh: Scalar,
        halfw: Scalar,
        back: Vector3,
        right: Vector3,
        up: Vector3,
        w: Vector3,
        x: Vector3,
        y: Vector3,
        xw: Vector3,
        yh: Vector3,
        left: Point3,
        low: Point3,
    |
        #![trigger
            extent_steps(kernel, vfov, aspect, radians, half, halfh, halfw),
            basis_steps(kernel, origin, lookat, vup, back, right, up, w, x, y),
            plane_steps(kernel, origin, halfw, halfh, w, x, y, xw, yh, left, low, camera),
        ]
        {
            &&& extent_steps(kernel, vfov, aspect, radians, half, halfh, halfw)
            &&& basis_steps(kernel, origin, lookat, vup, back, right, up, w, x, y)
            &&& plane_steps(kernel, origin, halfw, halfh, w, x, y, xw, yh, left, low, camera)
        }
}

/// The steps to the ray through the point `(u, v)` of the image plane: the
/// parts along its two spans, the point, and the direction to it from the
/// eye.
pub open spec fn ray_steps<K: Kernel>(
    kernel: K,
    camera: Camera,
    u: Scalar,
    v: Scalar,
    along: Vector3,
    across: Vector3,
    partway: Point3,
    through: Point3,
    ray: Ray,
) -> bool {
    &&& stretched(kernel, camera.u, u, along)
    &&& added(kernel, camera.w, along, partway)
    &&& stretched(kernel, camera.v, v, across)
    &&& added(kernel, partway, across, through)
    &&& subtracted(kernel, through, camera.origin, ray.direction)
    &&& ray.origin == camera.origin
}

/// `ray` is what `kernel` made of the ray from the eye through the point
/// `(u, v)` of the image plane, both counted from zero at the lower left
/// corner to one: of the direction `w + u U + v V - origin`.
pub open spec fn sighted<K: Kernel>(
    kernel: K,
    camera: Camera,
    u: Scalar,
    v: Scalar,
    ray: Ray,
) -> bool {
    exists|along: Vector3, across: Vector3, partway: Point3, through: Point3| #[trigger]
        ray_steps(kernel, camera, u, v, along, across, partway, through, ray)
}

impl Camera {
    /// The camera with the given eye and image plane.
    pub fn new(origin: Point3, u: Vector3, v: Vector3, w: Vector3) -> (r: Camera)
        ensures
            r.origin == origin,
            r.u == u,
            r.v == v,
            r.w == w,
    {
        Camera { origin, u, v, w }
    }

    /// The camera of an eye at `origin` that looks at `lookat`, with `vup`
    /// pointing up, a vertical field of view of `vfov` degrees and the given
    /// ratio of width to height. An eye at its target, or an up vector along
    /// the line of sight, has no basis, and gives what the kernel makes of
    /// divisions by zero.
    pub fn from_lookat<K: Kernel>(
        origin: Vector3,
        lookat: Vector3,
        vup: Vector3,
        vfov: Scalar,
        aspect: Scalar,
        kernel: &K,
    ) -> (r: Camera)
        ensures
            looking(*kernel, origin, lookat, vup, vfov, aspect, r),
    {
        let radians = kernel.product(vfov, Scalar::from_bits(RADIANS_PER_DEGREE_BITS));
        let half = kernel.product(radians, Scalar::from_bits(HALF_BITS));
        let halfh = kernel.tangent(half);
        let halfw = kernel.product(aspect, halfh);
        let back = origin.sub(lookat, kernel);
        let w = back.normalize(kernel);
        let right = vup.cross(w, kernel);
        let x = right.normalize(kernel);
        let up = w.cross(x, kernel);
        let y = up.normalize(kernel);
        let xw = x.mul(halfw, kernel);
        let yh = y.mul(halfh, kernel);
        let two = Scalar::from_bits(TWO_BITS);
        let left = origin.sub(xw, kernel);
        let low = left.sub(yh, kernel);
        let r = Camera {
            origin,
            u: xw.mul(two, kernel),
            v: yh.mul(two, kernel),
            w: low.sub(w, kernel),
        };
        assert(extent_steps(*kernel, vfov, aspect, radians, half, halfh, halfw));
        assert(basis_steps(*kernel, origin, lookat, vup, back, right, up, w, x, y));
        assert(plane_steps(*kernel, origin, halfw, halfh, w, x, y, xw, yh, left, low, r));
        r
    }

    /// The ray from the eye through the point `(u, v)` of the image plane,
    /// both counted from zero at the lower left corner to one.
    pub fn ray<K: Kernel>(&self, u: Scalar, v: Scalar, kernel: &K) -> (r: Ray)
        ensures
            sighted(*kernel, *self, u, v, r),
    {
        let along = self.u.mul(u, kernel);
        let partway = self.w.add(along, kernel);
        let across = self.v.mul(v, kernel);
        let through = partway.add(across, kernel);
        let r = Ray { origin: self.origin, direction: through.sub(self.origin, kernel) };
        assert(ray_steps(*kernel, *self, u, v, along, across, partway, through, r));
        r
    }
}

} // verus!
