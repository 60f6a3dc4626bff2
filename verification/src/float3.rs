//! Triples of scalars: points, directions and colours.

use vstd::prelude::*;
use vstd::std_specs::cmp::PartialEqSpecImpl;
use vstd::std_specs::ops::NegSpecImpl;
use core::ops::Neg;
use crate::kernel::is_difference;
use crate::kernel::is_power;
use crate::kernel::is_product;
use crate::kernel::is_quotient;
use crate::kernel::is_root;
use crate::kernel::is_sum;
use crate::kernel::is_uniform;
use crate::kernel::Kernel;
use crate::scalar::MINUS_ONE_BITS;
use crate::scalar::ONE_BITS;
use crate::scalar::Scalar;
use crate::scalar::TWO_BITS;
use crate::scalar::ZERO_BITS;

verus! {

/// Three scalars, read as a point, a direction or a linear colour.
#[derive(Clone, Copy, Debug)]
pub struct Float3 {
    pub x: Scalar,
    pub y: Scalar,
    pub z: Scalar,
}

/// A linear colour.
pub type Color = Float3;

/// A direction.
pub type Vector3 = Float3;

/// A point.
pub type Point3 = Float3;

/// A point drawn at random from the cube from -1 to 1, with the square of its
/// length.
#[derive(Clone, Copy, Debug)]
pub struct Draw {
    pub point: Float3,
    pub length_squared: Scalar,
}

/// The number of draws after which rejection sampling gives up.
pub const ATTEMPTS: usize = 1000;

impl Draw {
    /// The point lies strictly inside the unit sphere.
    pub open spec fn inside(self) -> bool {
        self.length_squared.below(Scalar(ONE_BITS))
    }

    /// Whether the point lies strictly inside the unit sphere: whether the
    /// square of its length is below one.
    pub fn accepted(&self) -> (r: bool)
        ensures
            r == self.inside(),
    {
        self.length_squared < Scalar::one()
    }
}

/// No draw before the `n`th lies inside the unit sphere.
pub open spec fn none_inside(draws: Seq<Draw>, n: int) -> bool {
    forall|j: int| 0 <= j < n ==> !(#[trigger] draws[j]).inside()
}

/// `draw` is what `kernel` drew from the cube from -1 to 1, and what it made
/// of the square of its length.
pub open spec fn drawn<K: Kernel>(kernel: K, draw: Draw) -> bool {
    &&& limited(kernel, Scalar(MINUS_ONE_BITS), Scalar(ONE_BITS), draw.point)
    &&& dotted(kernel, draw.point, draw.point, draw.length_squared)
}

/// `point` is what rejection sampling makes of `draws`, which `kernel` drew
/// one after the other: all but the last of them lie outside the unit
/// sphere; the last lies inside and holds `point`, or else it is the last
/// that is tried, and `point` is the origin.
pub open spec fn sampled<K: Kernel>(kernel: K, draws: Seq<Draw>, point: Float3) -> bool {
    &&& 1 <= draws.len() <= ATTEMPTS
    &&& forall|i: int| 0 <= i < draws.len() ==> drawn(kernel, #[trigger] draws[i])
    &&& none_inside(draws, draws.len() - 1)
    &&& if draws.last().inside() {
        point == draws.last().point
    } else {
        draws.len() == ATTEMPTS && point == Float3::splat(Scalar(ZERO_BITS))
    }
}

/// `r` is what `kernel` made of `a + b`, component by component.
pub open spec fn added<K: Kernel>(kernel: K, a: Float3, b: Float3, r: Float3) -> bool {
    &&& is_sum(kernel, a.x, b.x, r.x)
    &&& is_sum(kernel, a.y, b.y, r.y)
    &&& is_sum(kernel, a.z, b.z, r.z)
}

/// `r` is what `kernel` made of `a - b`, component by component.
pub open spec fn subtracted<K: Kernel>(kernel: K, a: Float3, b: Float3, r: Float3) -> bool {
    &&& is_difference(kernel, a.x, b.x, r.x)
    &&& is_difference(kernel, a.y, b.y, r.y)
    &&& is_difference(kernel, a.z, b.z, r.z)
}

/// `r` is what `kernel` made of `a * b`, component by component.
pub open spec fn multiplied<K: Kernel>(kernel: K, a: Float3, b: Float3, r: Float3) -> bool {
    &&& is_product(kernel, a.x, b.x, r.x)
    &&& is_product(kernel, a.y, b.y, r.y)
    &&& is_product(kernel, a.z, b.z, r.z)
}

/// `r` is what `kernel` made of every component of `a` times `s`.
pub open spec fn stretched<K: Kernel>(kernel: K, a: Float3, s: Scalar, r: Float3) -> bool {
    &&& is_product(kernel, a.x, s, r.x)
    &&& is_product(kernel, a.y, s, r.y)
    &&& is_product(kernel, a.z, s, r.z)
}

/// `r` is what `kernel` made of every component of `a` divided by `s`.
pub open spec fn divided<K: Kernel>(kernel: K, a: Float3, s: Scalar, r: Float3) -> bool {
    &&& is_quotient(kernel, a.x, s, r.x)
    &&& is_quotient(kernel, a.y, s, r.y)
    &&& is_quotient(kernel, a.z, s, r.z)
}

/// `r` is what `kernel` made of the square root of every component of `a`.
pub open spec fn rooted<K: Kernel>(kernel: K, a: Float3, r: Float3) -> bool {
    &&& is_root(kernel, a.x, r.x)
    &&& is_root(kernel, a.y, r.y)
    &&& is_root(kernel, a.z, r.z)
}

/// The products `p` of the components of `a` and `b`, summed up from zero
/// in the order of the components: `s` holds the sums after the first and
/// after the second, `r` is the sum of all three.
pub open spec fn dot_steps<K: Kernel>(
    kernel: K,
    a: Float3,
    b: Float3,
    p: Float3,
    s: (Scalar, Scalar),
    r: Scalar,
) -> bool {
    &&& multiplied(kernel, a, b, p)
    &&& is_sum(kernel, Scalar(ZERO_BITS), p.x, s.0)
    &&& is_sum(kernel, s.0, p.y, s.1)
    &&& is_sum(kernel, s.1, p.z, r)
}

/// `r` is what `kernel` made of the dot product of `a` and `b`: of
/// `((0 + a.x b.x) + a.y b.y) + a.z b.z`.
pub open spec fn dotted<K: Kernel>(kernel: K, a: Float3, b: Float3, r: Scalar) -> bool {
    exists|p: Float3, s: (Scalar, Scalar)| #[trigger] dot_steps(kernel, a, b, p, s, r)
}

/// The six products of the cross product of `a` and `b`, in `p` those that
/// are added and in `q` those that are taken away, and their differences
/// `r`.
pub open spec fn cross_steps<K: Kernel>(
    kernel: K,
    a: Float3,
    b: Float3,
    p: Float3,
    q: Float3,
    r: Float3,
) -> bool {
    &&& is_product(kernel, a.y, b.z, p.x)
    &&& is_product(kernel, a.z, b.y, q.x)
    &&& is_product(kernel, a.z, b.x, p.y)
    &&& is_product(kernel, a.x, b.z, q.y)
    &&& is_product(kernel, a.x, b.y, p.z)
    &&& is_product(kernel, a.y, b.x, q.z)
    &&& subtracted(kernel, p, q, r)
}

/// `r` is what `kernel` made of the cross product of `a` and `b`: of
/// `(a.y b.z - a.z b.y, a.z b.x - a.x b.z, a.x b.y - a.y b.x)`.
pub open spec fn crossed<K: Kernel>(kernel: K, a: Float3, b: Float3, r: Float3) -> bool {
    exists|p: Float3, q: Float3| #[trigger] cross_steps(kernel, a, b, p, q, r)
}

/// `r` is what `kernel` made of the length of `a`: of the square root of
/// the dot product of `a` with itself.
pub open spec fn measured<K: Kernel>(kernel: K, a: Float3, r: Scalar) -> bool {
    exists|squared: Scalar| #[trigger] dotted(kernel, a, a, squared) && is_root(kernel, squared, r)
}

/// `r` is what `kernel` made of `a` brought to unit length: of `a` divided
/// by its length.
pub open spec fn normalized<K: Kernel>(kernel: K, a: Float3, r: Float3) -> bool {
    exists|length: Scalar| #[trigger] measured(kernel, a, length) && divided(kernel, a, length, r)
}

/// `r` is what `kernel` made of the point at `t` between `a` and `b`: of
/// `a + (b - a) t`.
pub open spec fn lerped<K: Kernel>(kernel: K, a: Float3, b: Float3, t: Scalar, r: Float3) -> bool {
    exists|span: Float3, part: Float3|
        #![trigger subtracted(kernel, b, a, span), stretched(kernel, span, t, part)]
        subtracted(kernel, b, a, span) && stretched(kernel, span, t, part) && added(
            kernel,
            a,
            part,
            r,
        )
}

/// `r` is what `kernel` made of `a` after gamma correction by `factor`: of
/// every component to the power of one over `factor`.
pub open spec fn corrected<K: Kernel>(kernel: K, a: Float3, factor: Scalar, r: Float3) -> bool {
    exists|recip: Scalar| #[trigger]
        is_quotient(kernel, Scalar(ONE_BITS), factor, recip) && is_power(kernel, a.x, recip, r.x)
            && is_power(kernel, a.y, recip, r.y) && is_power(kernel, a.z, recip, r.z)
}

/// The steps of mirroring `a` at a surface of normal `n`: twice the normal,
/// the dot product of `a` and the normal, their product `back`, and `a`
/// less that.
pub open spec fn reflect_steps<K: Kernel>(
    kernel: K,
    a: Float3,
    n: Float3,
    twice: Float3,
    along: Scalar,
    back: Float3,
    r: Float3,
) -> bool {
    &&& stretched(kernel, n, Scalar(TWO_BITS), twice)
    &&& dotted(kernel, a, n, along)
    &&& stretched(kernel, twice, along, back)
    &&& subtracted(kernel, a, back, r)
}

/// `r` is what `kernel` made of `a` mirrored at a surface of normal `n`: of
/// `a - (2 n) (a . n)`.
pub open spec fn reflected<K: Kernel>(kernel: K, a: Float3, n: Float3, r: Float3) -> bool {
    exists|twice: Float3, along: Scalar, back: Float3| #[trigger]
        reflect_steps(kernel, a, n, twice, along, back, r)
}

/// `r` is what `kernel` made of the point two directions away from
/// `origin`: of `origin + 2 direction`.
pub open spec fn doubled<K: Kernel>(
    kernel: K,
    origin: Float3,
    direction: Float3,
    r: Float3,
) -> bool {
    exists|step: Float3| #[trigger]
        stretched(kernel, direction, Scalar(TWO_BITS), step) && added(kernel, origin, step, r)
}

/// `r` holds three numbers that `kernel` drew.
pub open spec fn randomized<K: Kernel>(kernel: K, r: Float3) -> bool {
    is_uniform(kernel, r.x) && is_uniform(kernel, r.y) && is_uniform(kernel, r.z)
}

/// `r` is what `kernel` made of `x`, a number between zero and one, drawn
/// out to the range from `min` to `max`: of `min + x (max - min)`.
pub open spec fn spread<K: Kernel>(
    kernel: K,
    x: Scalar,
    min: Scalar,
    max: Scalar,
    r: Scalar,
) -> bool {
    exists|width: Scalar, part: Scalar|
        #![trigger is_difference(kernel, max, min, width), is_product(kernel, x, width, part)]
        is_difference(kernel, max, min, width) && is_product(kernel, x, width, part) && is_sum(
            kernel,
            min,
            part,
            r,
        )
}

/// `r` holds three numbers that `kernel` drew and drew out to the range
/// from `min` to `max`.
pub open spec fn limited<K: Kernel>(kernel: K, min: Scalar, max: Scalar, r: Float3) -> bool {
    exists|unit: Float3| #[trigger]
        randomized(kernel, unit) && spread(kernel, unit.x, min, max, r.x) && spread(
            kernel,
            unit.y,
            min,
            max,
            r.y,
        ) && spread(kernel, unit.z, min, max, r.z)
}

/// `x`, a number between zero and one, drawn out to the range from `min` to
/// `max`.
fn stretch<K: Kernel>(x: Scalar, min: Scalar, max: Scalar, kernel: &K) -> (r: Scalar)
    ensures
        spread(*kernel, x, min, max, r),
{
    let width = kernel.difference(max, min);
    let part = kernel.product(x, width);
    let r = kernel.sum(min, part);
    assert(is_difference(*kernel, max, min, width) && is_product(*kernel, x, width, part));
    r
}

impl Float3 {
    /// Every component negated.
    pub open spec fn negated(self) -> Float3 {
        Float3 { x: self.x.negated(), y: self.y.negated(), z: self.z.negated() }
    }

    /// Every component brought into `[0, 1]`.
    pub open spec fn clamped(self) -> Float3 {
        Float3 { x: self.x.clamped(), y: self.y.clamped(), z: self.z.clamped() }
    }

    /// No component is a NaN.
    pub open spec fn numbers(self) -> bool {
        !self.x.nan() && !self.y.nan() && !self.z.nan()
    }

    /// Alike component by component: equal as IEEE-754 compares scalars, or
    /// both a NaN.
    pub open spec fn alike(self, other: Float3) -> bool {
        self.x.alike(other.x) && self.y.alike(other.y) && self.z.alike(other.z)
    }

    /// Equal component by component, as IEEE-754 compares scalars.
    pub open spec fn same(self, other: Float3) -> bool {
        self.x.same(other.x) && self.y.same(other.y) && self.z.same(other.z)
    }

    /// The triple with the given components.
    pub fn new(x: Scalar, y: Scalar, z: Scalar) -> (r: Float3)
        ensures
            r == (Float3 { x, y, z }),
    {
        Float3 { x, y, z }
    }

    /// The origin, and black.
    pub fn zero() -> (r: Float3)
        ensures
            r == Float3::splat(Scalar(ZERO_BITS)),
    {
        Float3::full(Scalar::zero())
    }

    /// One in every component.
    pub fn one() -> (r: Float3)
        ensures
            r == Float3::splat(Scalar(ONE_BITS)),
    {
        Float3::full(Scalar::one())
    }

    /// `value` in every component.
    pub open spec fn splat(value: Scalar) -> Float3 {
        Float3 { x: value, y: value, z: value }
    }

    /// `value` in every component.
    pub fn full(value: Scalar) -> (r: Float3)
        ensures
            r == Float3::splat(value),
    {
        Float3 { x: value, y: value, z: value }
    }

    /// The sum of the two vectors.
    pub fn add<K: Kernel>(&self, other: Float3, kernel: &K) -> (r: Float3)
        ensures
            added(*kernel, *self, other, r),
    {
        Float3 {
            x: kernel.sum(self.x, other.x),
            y: kernel.sum(self.y, other.y),
            z: kernel.sum(self.z, other.z),
        }
    }

    /// The vector less `other`.
    pub fn sub<K: Kernel>(&self, other: Float3, kernel: &K) -> (r: Float3)
        ensures
            subtracted(*kernel, *self, other, r),
    {
        Float3 {
            x: kernel.difference(self.x, other.x),
            y: kernel.difference(self.y, other.y),
            z: kernel.difference(self.z, other.z),
        }
    }

    /// The vector times `rhs`, component by component.
    pub fn mul_each<K: Kernel>(&self, rhs: Float3, kernel: &K) -> (r: Float3)
        ensures
            multiplied(*kernel, *self, rhs, r),
    {
        Float3 {
            x: kernel.product(self.x, rhs.x),
            y: kernel.product(self.y, rhs.y),
            z: kernel.product(self.z, rhs.z),
        }
    }

    /// The vector times the number `rhs`.
    pub fn mul<K: Kernel>(&self, rhs: Scalar, kernel: &K) -> (r: Float3)
        ensures
            stretched(*kernel, *self, rhs, r),
    {
        Float3 {
            x: kernel.product(self.x, rhs),
            y: kernel.product(self.y, rhs),
            z: kernel.product(self.z, rhs),
        }
    }

    /// The vector divided by the number `rhs`.
    pub fn div<K: Kernel>(&self, rhs: Scalar, kernel: &K) -> (r: Float3)
        ensures
            divided(*kernel, *self, rhs, r),
    {
        Float3 {
            x: kernel.quotient(self.x, rhs),
            y: kernel.quotient(self.y, rhs),
            z: kernel.quotient(self.z, rhs),
        }
    }

    /// Adds `rhs` to the vector.
    pub fn add_assign<K: Kernel>(&mut self, rhs: Float3, kernel: &K)
        ensures
            added(*kernel, *old(self), rhs, *final(self)),
    {
        let sum = self.add(rhs, kernel);
        *self = sum;
    }

    /// The square root of every component.
    pub fn sqrt<K: Kernel>(&self, kernel: &K) -> (r: Float3)
        ensures
            rooted(*kernel, *self, r),
    {
        Float3 { x: kernel.root(self.x), y: kernel.root(self.y), z: kernel.root(self.z) }
    }

    /// The dot product with `rhs`.
    pub fn dot<K: Kernel>(&self, rhs: Float3, kernel: &K) -> (r: Scalar)
        ensures
            dotted(*kernel, *self, rhs, r),
    {
        let p = self.mul_each(rhs, kernel);
        let sx = kernel.sum(Scalar::zero(), p.x);
        let sy = kernel.sum(sx, p.y);
        let r = kernel.sum(sy, p.z);
        assert(dot_steps(*kernel, *self, rhs, p, (sx, sy), r));
        r
    }

    /// The cross product with `rhs`.
    pub fn cross<K: Kernel>(&self, rhs: Float3, kernel: &K) -> (r: Float3)
        ensures
            crossed(*kernel, *self, rhs, r),
    {
        let p = Float3 {
            x: kernel.product(self.y, rhs.z),
            y: kernel.product(self.z, rhs.x),
            z: kernel.product(self.x, rhs.y),
        };
        let q = Float3 {
            x: kernel.product(self.z, rhs.y),
            y: kernel.product(self.x, rhs.z),
            z: kernel.product(self.y, rhs.x),
        };
        let r = p.sub(q, kernel);
        assert(cross_steps(*kernel, *self, rhs, p, q, r));
        r
    }

    /// The length.
    pub fn length<K: Kernel>(&self, kernel: &K) -> (r: Scalar)
        ensures
            measured(*kernel, *self, r),
    {
        let squared = self.length_squared(kernel);
        kernel.root(squared)
    }

    /// The square of the length: the dot product of the vector with itself.
    pub fn length_squared<K: Kernel>(&self, kernel: &K) -> (r: Scalar)
        ensures
            dotted(*kernel, *self, *self, r),
    {
        self.dot(*self, kernel)
    }

    /// The vector brought to unit length. A vector of length zero has none,
    /// and gives what the kernel makes of a division by zero.
    pub fn normalize<K: Kernel>(&self, kernel: &K) -> (r: Float3)
        ensures
            normalized(*kernel, *self, r),
    {
        let length = self.length(kernel);
        self.div(length, kernel)
    }

    /// The point at `t` on the way from the vector to `v`.
    pub fn lerp<K: Kernel>(&self, v: Float3, t: Scalar, kernel: &K) -> (r: Float3)
        ensures
            lerped(*kernel, *self, v, t, r),
    {
        let span = v.sub(*self, kernel);
        let part = span.mul(t, kernel);
        self.add(part, kernel)
    }

    /// The colour after gamma correction by `factor`.
    pub fn gamma<K: Kernel>(&self, factor: Scalar, kernel: &K) -> (r: Float3)
        ensures
            corrected(*kernel, *self, factor, r),
    {
        let recip = kernel.quotient(Scalar::one(), factor);
        assert(is_quotient(*kernel, Scalar(ONE_BITS), factor, recip));
        Float3 {
            x: kernel.power(self.x, recip),
            y: kernel.power(self.y, recip),
            z: kernel.power(self.z, recip),
        }
    }

    /// The vector mirrored at a surface of the given normal.
    pub fn reflect<K: Kernel>(&self, normal: Float3, kernel: &K) -> (r: Float3)
        ensures
            reflected(*kernel, *self, normal, r),
    {
        let twice = normal.mul(Scalar::from_bits(TWO_BITS), kernel);
        let along = self.dot(normal, kernel);
        let back = twice.mul(along, kernel);
        let r = self.sub(back, kernel);
        assert(reflect_steps(*kernel, *self, normal, twice, along, back, r));
        r
    }

    /// The point two directions away from `origin`.
    pub fn at<K: Kernel>(origin: Vector3, direction: Point3, kernel: &K) -> (r: Point3)
        ensures
            doubled(*kernel, origin, direction, r),
    {
        let step = direction.mul(Scalar::from_bits(TWO_BITS), kernel);
        origin.add(step, kernel)
    }

    /// Three numbers drawn at random from zero up to one.
    pub fn random<K: Kernel>(kernel: &K) -> (r: Float3)
        ensures
            randomized(*kernel, r),
    {
        let x = kernel.uniform();
        let y = kernel.uniform();
        let z = kernel.uniform();
        Float3 { x, y, z }
    }

    /// One number drawn at random from zero up to one, in every component.
    pub fn random_full<K: Kernel>(kernel: &K) -> (r: Float3)
        ensures
            is_uniform(*kernel, r.x),
            r == Float3::splat(r.x),
    {
        Float3::full(kernel.uniform())
    }

    /// Three numbers drawn at random from `min` up to `max`.
    pub fn random_limit<K: Kernel>(min: Scalar, max: Scalar, kernel: &K) -> (r: Float3)
        ensures
            limited(*kernel, min, max, r),
    {
        let unit = Float3::random(kernel);
        let r = Float3 {
            x: stretch(unit.x, min, max, kernel),
            y: stretch(unit.y, min, max, kernel),
            z: stretch(unit.z, min, max, kernel),
        };
        assert(randomized(*kernel, unit) && spread(*kernel, unit.x, min, max, r.x));
        r
    }

    /// The first component.
    pub fn x(&self) -> (r: Scalar)
        ensures
            r == self.x,
    {
        self.x
    }

    /// The second component.
    pub fn y(&self) -> (r: Scalar)
        ensures
            r == self.y,
    {
        self.y
    }

    /// The third component.
    pub fn z(&self) -> (r: Scalar)
        ensures
            r == self.z,
    {
        self.z
    }

    /// The unit vector along the first axis.
    pub fn xaxis() -> (r: Float3)
        ensures
            r == (Float3 { x: Scalar(ONE_BITS), y: Scalar(ZERO_BITS), z: Scalar(ZERO_BITS) }),
    {
        Float3::new(Scalar::one(), Scalar::zero(), Scalar::zero())
    }

    /// The unit vector along the second axis.
    pub fn yaxis() -> (r: Float3)
        ensures
            r == (Float3 { x: Scalar(ZERO_BITS), y: Scalar(ONE_BITS), z: Scalar(ZERO_BITS) }),
    {
        Float3::new(Scalar::zero(), Scalar::one(), Scalar::zero())
    }

    /// The unit vector along the third axis.
    pub fn zaxis() -> (r: Float3)
        ensures
            r == (Float3 { x: Scalar(ZERO_BITS), y: Scalar(ZERO_BITS), z: Scalar(ONE_BITS) }),
    {
        Float3::new(Scalar::zero(), Scalar::zero(), Scalar::one())
    }

    /// The first three of `items`, in their order.
    pub fn from_iter(items: &Vec<Scalar>) -> (r: Float3)
        requires
            items.len() >= 3,
        ensures
            r == (Float3 { x: items[0], y: items[1], z: items[2] }),
    {
        Float3 { x: items[0], y: items[1], z: items[2] }
    }

    /// A point strictly inside the unit sphere, by rejection: the kernel draws
    /// from the cube round the sphere until a draw lies inside, which is then
    /// the point. After `ATTEMPTS` draws that all lie outside the point is
    /// the origin.
    pub fn random_in_unit_sphere<K: Kernel>(kernel: &K) -> (r: Float3)
        ensures
            exists|draws: Seq<Draw>| #[trigger] sampled(*kernel, draws, r),
    {
        let ghost mut draws: Seq<Draw> = Seq::empty();
        let mut i: usize = 0;
        while i < ATTEMPTS
            invariant
                i <= ATTEMPTS,
                draws.len() == i,
                forall|j: int| 0 <= j < i ==> drawn(*kernel, #[trigger] draws[j]),
                none_inside(draws, i as int),
            decreases ATTEMPTS - i,
        {
            let point = Float3::random_limit(
                Scalar::from_bits(MINUS_ONE_BITS),
                Scalar::one(),
                kernel,
            );
            let draw = Draw { point, length_squared: point.length_squared(kernel) };
            proof {
                assert(drawn(*kernel, draw));
                draws = draws.push(draw);
            }
            if draw.accepted() {
                proof {
                    assert(sampled(*kernel, draws, draw.point));
                }
                return draw.point;
            }
            i += 1;
        }
        proof {
            assert(sampled(*kernel, draws, Float3::splat(Scalar(ZERO_BITS))));
        }
        Float3::zero()
    }

    /// Every component brought into `[0, 1]`; a NaN becomes one.
    pub fn saturate(&self) -> (r: Float3)
        ensures
            r == self.clamped(),
    {
        Float3 { x: self.x.saturate(), y: self.y.saturate(), z: self.z.saturate() }
    }
}

impl PartialEq for Float3 {
    /// Equal component by component, as IEEE-754 compares scalars.
    fn eq(&self, other: &Float3) -> (r: bool) {
        self.x == other.x && self.y == other.y && self.z == other.z
    }
}

impl PartialEqSpecImpl for Float3 {
    open spec fn obeys_eq_spec() -> bool {
        true
    }

    open spec fn eq_spec(&self, other: &Float3) -> bool {
        self.same(*other)
    }
}

impl Neg for Float3 {
    type Output = Float3;

    /// Every component with the opposite sign.
    fn neg(self) -> (r: Float3) {
        Float3 { x: self.x.neg(), y: self.y.neg(), z: self.z.neg() }
    }
}

impl NegSpecImpl for Float3 {
    open spec fn obeys_neg_spec() -> bool {
        true
    }

    open spec fn neg_req(self) -> bool {
        true
    }

    open spec fn neg_spec(self) -> Float3 {
        self.negated()
    }
}

} // verus!
