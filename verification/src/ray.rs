//! Rays: an origin and a direction.

use vstd::prelude::*;
use vstd::std_specs::cmp::PartialEqSpecImpl;
use core::ops::Neg;
use crate::float3::added;
use crate::float3::dotted;
use crate::float3::Float3;
use crate::float3::Point3;
use crate::float3::stretched;
use crate::float3::subtracted;
use crate::float3::Vector3;
use crate::kernel::is_difference;
use crate::kernel::is_product;
use crate::kernel::is_quotient;
use crate::kernel::is_root;
use crate::kernel::Kernel;
use crate::scalar::FOUR_BITS;
use crate::scalar::MINUS_ONE_BITS;
use crate::scalar::Scalar;
use crate::scalar::TWO_BITS;
use crate::scalar::ZERO_BITS;

verus! {

/// A half-line: the points `origin + t * direction`. The direction need not
/// have unit length.
#[derive(Clone, Copy, Debug)]
pub struct Ray {
    pub origin: Point3,
    pub direction: Vector3,
}

impl Ray {
    /// Equal in origin and direction, as IEEE-754 compares scalars.
    pub open spec fn same(self, other: Ray) -> bool {
        self.origin.same(other.origin) && self.direction.same(other.direction)
    }

    /// The ray from `origin` along `direction`.
    pub fn new(origin: Point3, direction: Vector3) -> (r: Ray)
        ensures
            r == (Ray { origin, direction }),
    {
        Ray { origin, direction }
    }

    /// The point of the ray at the parameter `t`.
    pub fn at<K: Kernel>(&self, t: Scalar, kernel: &K) -> (r: Point3)
        ensures
            reached(*kernel, *self, t, r),
    {
        let step = self.direction.mul(t, kernel);
        self.origin.add(step, kernel)
    }

    /// The discriminant of the quadratic of the ray and the sphere round
    /// `center`, with the coefficients `a` and `b` that the roots are made
    /// of.
    pub fn quadratic<K: Kernel>(&self, center: Point3, radius: Scalar, kernel: &K) -> (r: Quadratic)
        ensures
            solved(*kernel, *self, center, radius, r),
    {
        let oc = self.origin.sub(center, kernel);
        let a = self.direction.dot(self.direction, kernel);
        let along = self.direction.dot(oc, kernel);
        let b = kernel.product(Scalar::from_bits(TWO_BITS), along);
        let apart = oc.dot(oc, kernel);
        let reach = kernel.product(radius, radius);
        let c = kernel.difference(apart, reach);
        let bb = kernel.product(b, b);
        let a4 = kernel.product(Scalar::from_bits(FOUR_BITS), a);
        let ac4 = kernel.product(a4, c);
        let d = kernel.difference(bb, ac4);
        let r = Quadratic { a, b, d };
        assert(quadratic_steps(
            *kernel,
            *self,
            center,
            radius,
            oc,
            (along, apart, reach),
            c,
            (bb, a4, ac4),
            r,
        ));
        r
    }

    /// The parameter at which the ray first meets the sphere round `center`,
    /// or minus one where it misses the sphere: where the discriminant of
    /// the quadratic is negative.
    pub fn hit_sphere<K: Kernel>(&self, center: Point3, radius: Scalar, kernel: &K) -> (r: Scalar)
        ensures
            exists|q: Quadratic| #[trigger]
                solved(*kernel, *self, center, radius, q) && if q.d.below(Scalar(ZERO_BITS)) {
                    r == Scalar(MINUS_ONE_BITS)
                } else {
                    is_near_root(*kernel, q, r)
                },
    {
        let q = self.quadratic(center, radius, kernel);
        if q.d < Scalar::zero() {
            Scalar::from_bits(MINUS_ONE_BITS)
        } else {
            q.near(kernel)
        }
    }
}

/// The quadratic `a t^2 + b t + c = 0` of a ray and a sphere, as far as its
/// roots need it: `a`, `b` and the discriminant `d`.
#[derive(Clone, Copy, Debug)]
pub struct Quadratic {
    pub a: Scalar,
    pub b: Scalar,
    pub d: Scalar,
}

/// `p` is what `kernel` made of the point of `ray` at `t`: of
/// `origin + direction t`.
pub open spec fn reached<K: Kernel>(kernel: K, ray: Ray, t: Scalar, p: Point3) -> bool {
    exists|step: Float3| #[trigger]
        stretched(kernel, ray.direction, t, step) && added(kernel, ray.origin, step, p)
}

/// The steps to the quadratic of `ray` and the sphere round `center`: with
/// `oc` the vector from the center to the origin of the ray and `D` its
/// direction, `a = D.D`, `b = 2 (D.oc)`, `c = oc.oc - radius radius` and
/// `d = b b - (4 a) c`.
pub open spec fn quadratic_steps<K: Kernel>(
    kernel: K,
    ray: Ray,
    center: Point3,
    radius: Scalar,
    oc: Float3,
    dots: (Scalar, Scalar, Scalar),
    c: Scalar,
    parts: (Scalar, Scalar, Scalar),
    q: Quadratic,
) -> bool {
    &&& subtracted(kernel, ray.origin, center, oc)
    &&& dotted(kernel, ray.direction, ray.direction, q.a)
    &&& dotted(kernel, ray.direction, oc, dots.0)
    &&& is_product(kernel, Scalar(TWO_BITS), dots.0, q.b)
    &&& dotted(kernel, oc, oc, dots.1)
    &&& is_product(kernel, radius, radius, dots.2)
    &&& is_difference(kernel, dots.1, dots.2, c)
    &&& is_product(kernel, q.b, q.b, parts.0)
    &&& is_product(kernel, Scalar(FOUR_BITS), q.a, parts.1)
    &&& is_product(kernel, parts.1, c, parts.2)
    &&& is_difference(kernel, parts.0, parts.2, q.d)
}

/// `q` is what `kernel` made of the quadratic of `ray` and the sphere round
/// `center`.
pub open spec fn solved<K: Kernel>(
    kernel: K,
    ray: Ray,
    center: Point3,
    radius: Scalar,
    q: Quadratic,
) -> bool {
    exists|oc: Float3, dots: (Scalar, Scalar, Scalar), c: Scalar, parts: (Scalar, Scalar, Scalar)|
        #[trigger] quadratic_steps(kernel, ray, center, radius, oc, dots, c, parts, q)
}

/// The steps to the nearer root of the quadratic: the square root of the
/// discriminant, taken from `-b`, over `2 a`.
pub open spec fn root_steps<K: Kernel>(
    kernel: K,
    q: Quadratic,
    root: Scalar,
    above: Scalar,
    below: Scalar,
    t: Scalar,
) -> bool {
    &&& is_root(kernel, q.d, root)
    &&& is_difference(kernel, q.b.negated(), root, above)
    &&& is_product(kernel, Scalar(TWO_BITS), q.a, below)
    &&& is_quotient(kernel, above, below, t)
}

/// `t` is what `kernel` made of the nearer root: of `(-b - sqrt(d)) / (2 a)`.
pub open spec fn is_near_root<K: Kernel>(kernel: K, q: Quadratic, t: Scalar) -> bool {
    exists|root: Scalar, above: Scalar, below: Scalar| #[trigger]
        root_steps(kernel, q, root, above, below, t)
}

impl Quadratic {
    /// The nearer root.
    pub fn near<K: Kernel>(&self, kernel: &K) -> (t: Scalar)
        ensures
            is_near_root(*kernel, *self, t),
    {
        let root = kernel.root(self.d);
        let above = kernel.difference(self.b.neg(), root);
        let below = kernel.product(Scalar::from_bits(TWO_BITS), self.a);
        let t = kernel.quotient(above, below);
        assert(root_steps(*kernel, *self, root, above, below, t));
        t
    }
}

impl PartialEq for Ray {
    /// Equal in origin and direction, as IEEE-754 compares scalars.
    fn eq(&self, other: &Ray) -> (r: bool) {
        self.origin == other.origin && self.direction == other.direction
    }
}

impl PartialEqSpecImpl for Ray {
    open spec fn obeys_eq_spec() -> bool {
        true
    }

    open spec fn eq_spec(&self, other: &Ray) -> bool {
        self.same(*other)
    }
}

} // verus!
