//! The arithmetic kernel: the rounding work that the tracer hands out.
//!
//! The tracer decides on bits and never rounds. Every sum, product,
//! quotient, root and random number is asked of a kernel, and the tracer
//! goes on with what the kernel hands back, whatever that is. What a
//! function that asks the kernel promises is therefore a relation: which
//! questions its result is the answer to, in which order.

use vstd::prelude::*;
use crate::scalar::Scalar;

verus! {

/// Arithmetic in double precision, and chance.
pub trait Kernel {
    /// `a + b`.
    fn sum(&self, a: Scalar, b: Scalar) -> Scalar;

    /// `a - b`.
    fn difference(&self, a: Scalar, b: Scalar) -> Scalar;

    /// `a * b`.
    fn product(&self, a: Scalar, b: Scalar) -> Scalar;

    /// `a / b`.
    fn quotient(&self, a: Scalar, b: Scalar) -> Scalar;

    /// The square root of `a`.
    fn root(&self, a: Scalar) -> Scalar;

    /// The tangent of `a`, an angle in radians.
    fn tangent(&self, a: Scalar) -> Scalar;

    /// `a` to the power of `b`.
    fn power(&self, a: Scalar, b: Scalar) -> Scalar;

    /// A number drawn at random from zero up to, but not including, one.
    fn uniform(&self) -> Scalar;

    /// `n` as a double.
    fn count(&self, n: usize) -> Scalar;
}

/// `r` is what `kernel` made of `a + b`.
pub open spec fn is_sum<K: Kernel>(kernel: K, a: Scalar, b: Scalar, r: Scalar) -> bool {
    call_ensures(K::sum, (&kernel, a, b), r)
}

/// `r` is what `kernel` made of `a - b`.
pub open spec fn is_difference<K: Kernel>(kernel: K, a: Scalar, b: Scalar, r: Scalar) -> bool {
    call_ensures(K::difference, (&kernel, a, b), r)
}

/// `r` is what `kernel` made of `a * b`.
pub open spec fn is_product<K: Kernel>(kernel: K, a: Scalar, b: Scalar, r: Scalar) -> bool {
    call_ensures(K::product, (&kernel, a, b), r)
}

/// `r` is what `kernel` made of `a / b`.
pub open spec fn is_quotient<K: Kernel>(kernel: K, a: Scalar, b: Scalar, r: Scalar) -> bool {
    call_ensures(K::quotient, (&kernel, a, b), r)
}

/// `r` is what `kernel` made of the square root of `a`.
pub open spec fn is_root<K: Kernel>(kernel: K, a: Scalar, r: Scalar) -> bool {
    call_ensures(K::root, (&kernel, a), r)
}

/// `r` is what `kernel` made of the tangent of `a`.
pub open spec fn is_tangent<K: Kernel>(kernel: K, a: Scalar, r: Scalar) -> bool {
    call_ensures(K::tangent, (&kernel, a), r)
}

/// `r` is what `kernel` made of `a` to the power of `b`.
pub open spec fn is_power<K: Kernel>(kernel: K, a: Scalar, b: Scalar, r: Scalar) -> bool {
    call_ensures(K::power, (&kernel, a, b), r)
}

/// `r` is a number that `kernel` drew.
pub open spec fn is_uniform<K: Kernel>(kernel: K, r: Scalar) -> bool {
    call_ensures(K::uniform, (&kernel,), r)
}

/// `r` is what `kernel` made of `n`.
pub open spec fn is_count<K: Kernel>(kernel: K, n: usize, r: Scalar) -> bool {
    call_ensures(K::count, (&kernel, n), r)
}

} // verus!
