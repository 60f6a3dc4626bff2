//! What the vector algebra inherits from the arithmetic of its kernel.
//!
//! The hypotheses below hold of arithmetic in double precision as IEEE-754
//! defines it: a product of two numbers does not depend on their order, and
//! `b - a` is the negation of `a - b` but for the sign of a zero and the
//! bits of a NaN.

use vstd::prelude::*;
use crate::float3::added;
use crate::float3::cross_steps;
use crate::float3::crossed;
use crate::float3::dot_steps;
use crate::float3::dotted;
use crate::float3::Float3;
use crate::kernel::is_difference;
use crate::kernel::is_product;
use crate::kernel::is_sum;
use crate::kernel::Kernel;
use crate::scalar::Scalar;
use crate::value::order_is_by_value;

verus! {

/// The product of `kernel` does not depend on the order of its factors,
/// where neither is a NaN.
pub open spec fn product_commutes<K: Kernel>(kernel: K) -> bool {
    forall|a: Scalar, b: Scalar, r: Scalar|
        !a.nan() && !b.nan() && #[trigger] is_product(kernel, a, b, r) ==> is_product(
            kernel,
            b,
            a,
            r,
        )
}

/// The difference of `kernel` changes its sign with the order of its terms:
/// where `a - b` can be `r`, `b - a` can be something that is alike to the
/// negation of `r`.
pub open spec fn difference_mirrors<K: Kernel>(kernel: K) -> bool {
    forall|a: Scalar, b: Scalar, r: Scalar| #[trigger]
        is_difference(kernel, a, b, r) ==> exists|m: Scalar| #[trigger]
            is_difference(kernel, b, a, m) && m.alike(r.negated())
}

/// The dot product is the same either way round, for a kernel whose product
/// is: what can be the dot product of `a` and `b` can be that of `b` and
/// `a`.
pub proof fn dot_commutes<K: Kernel>(kernel: K, a: Float3, b: Float3, r: Scalar)
    requires
        product_commutes(kernel),
        a.numbers(),
        b.numbers(),
        dotted(kernel, a, b, r),
    ensures
        dotted(kernel, b, a, r),
{
    let (p, s) = choose|p: Float3, s: (Scalar, Scalar)| #[trigger]
        dot_steps(kernel, a, b, p, s, r);
    assert(dot_steps(kernel, b, a, p, s, r));
}

/// The cross product changes its sign with the order of its factors, for a
/// kernel whose product does not depend on that order and whose difference
/// changes its sign with it: where `r` can be the cross product of `a` and
/// `b`, something that is alike to the negation of `r` can be that of `b`
/// and `a`.
pub proof fn cross_anticommutes<K: Kernel>(kernel: K, a: Float3, b: Float3, r: Float3)
    requires
        product_commutes(kernel),
        difference_mirrors(kernel),
        a.numbers(),
        b.numbers(),
        crossed(kernel, a, b, r),
    ensures
        exists|m: Float3| #[trigger] crossed(kernel, b, a, m) && m.alike(r.negated()),
{
    let (p, q) = choose|p: Float3, q: Float3| #[trigger] cross_steps(kernel, a, b, p, q, r);
    let mx = choose|m: Scalar| #[trigger]
        is_difference(kernel, q.x, p.x, m) && m.alike(r.x.negated());
    let my = choose|m: Scalar| #[trigger]
        is_difference(kernel, q.y, p.y, m) && m.alike(r.y.negated());
    let mz = choose|m: Scalar| #[trigger]
        is_difference(kernel, q.z, p.z, m) && m.alike(r.z.negated());
    let m = Float3 { x: mx, y: my, z: mz };
    assert(cross_steps(kernel, b, a, q, p, m));
    assert(crossed(kernel, b, a, m) && m.alike(r.negated()));
}

/// Some finite scalar stands for the number `n`, counted in units of
/// 2^-1074: nothing is to be rounded where `n` is to be held.
pub open spec fn holds_exactly(n: int) -> bool {
    exists|s: Scalar| s.finite() && #[trigger] s.scaled() == n
}

/// The sum of `kernel` is exact where nothing is to be rounded: where a
/// finite scalar stands for the sum of two finite numbers, the kernel's sum
/// is finite and stands for it.
pub open spec fn sum_is_exact<K: Kernel>(kernel: K) -> bool {
    forall|a: Scalar, b: Scalar, r: Scalar|
        a.finite() && b.finite() && holds_exactly(a.scaled() + b.scaled()) && #[trigger] is_sum(
            kernel,
            a,
            b,
            r,
        ) ==> r.finite() && r.scaled() == a.scaled() + b.scaled()
}

/// The numbers `a`, `b` and `c` can be added in either order without
/// rounding: each of them is finite, and finite scalars stand for `a + b`,
/// for `b + c` and for `a + b + c`.
pub open spec fn add_up_exactly(a: Scalar, b: Scalar, c: Scalar) -> bool {
    &&& a.finite() && b.finite() && c.finite()
    &&& holds_exactly(a.scaled() + b.scaled())
    &&& holds_exactly(b.scaled() + c.scaled())
    &&& holds_exactly(a.scaled() + b.scaled() + c.scaled())
}

/// Sums of three numbers that add up without rounding do not depend on the
/// order in which they are taken, for a kernel whose sum is exact where
/// nothing is to be rounded: `(a + b) + c` and `a + (b + c)` are equal as
/// IEEE-754 compares them.
pub proof fn sum_associates(
    a: Scalar,
    b: Scalar,
    c: Scalar,
    ab: Scalar,
    left: Scalar,
    bc: Scalar,
    right: Scalar,
)
    requires
        add_up_exactly(a, b, c),
        ab.finite() && ab.scaled() == a.scaled() + b.scaled(),
        left.finite() && left.scaled() == ab.scaled() + c.scaled(),
        bc.finite() && bc.scaled() == b.scaled() + c.scaled(),
        right.finite() && right.scaled() == a.scaled() + bc.scaled(),
    ensures
        left.same(right),
{
    order_is_by_value(left, right);
}

/// Addition of vectors is associative where nothing is rounded: for a
/// kernel whose sum is exact there, and three vectors whose components add
/// up without rounding, what can be `(a + b) + c` is equal, as IEEE-754
/// compares scalars, to what can be `a + (b + c)`.
pub proof fn add_associates<K: Kernel>(
    kernel: K,
    a: Float3,
    b: Float3,
    c: Float3,
    ab: Float3,
    left: Float3,
    bc: Float3,
    right: Float3,
)
    requires
        sum_is_exact(kernel),
        add_up_exactly(a.x, b.x, c.x),
        add_up_exactly(a.y, b.y, c.y),
        add_up_exactly(a.z, b.z, c.z),
        added(kernel, a, b, ab),
        added(kernel, ab, c, left),
        added(kernel, b, c, bc),
        added(kernel, a, bc, right),
    ensures
        left.same(right),
{
    sum_associates(a.x, b.x, c.x, ab.x, left.x, bc.x, right.x);
    sum_associates(a.y, b.y, c.y, ab.y, left.y, bc.y, right.y);
    sum_associates(a.z, b.z, c.z, ab.z, left.z, bc.z, right.z);
}

} // verus!
