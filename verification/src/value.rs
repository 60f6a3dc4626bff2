//! The number a scalar stands for, and that the order on the bits is the
//! order of those numbers.
//!
//! Every finite binary64 value is a whole multiple of 2^-1074. `scaled` is
//! that multiple, so finite values are compared and truncated as integers.

use vstd::prelude::*;
use vstd::arithmetic::div_mod::lemma_div_denominator;
use vstd::arithmetic::div_mod::lemma_div_multiples_vanish;
use vstd::arithmetic::div_mod::lemma_fundamental_div_mod;
use vstd::arithmetic::div_mod::lemma_small_div_converse;
use vstd::arithmetic::power2::lemma2_to64;
use vstd::arithmetic::power2::lemma2_to64_rest;
use vstd::arithmetic::power2::lemma_pow2_adds;
use vstd::arithmetic::power2::lemma_pow2_pos;
use vstd::arithmetic::power2::lemma_pow2_strictly_increases;
use vstd::arithmetic::power2::pow2;
use vstd::bits::lemma_u64_shr_is_div;
use crate::scalar::ONE_BITS;
use crate::scalar::Scalar;

verus! {

/// Two to the 52nd: the bit that a normal value's significand carries above
/// its fraction bits.
pub const HIDDEN_BIT: u64 = 0x10_0000_0000_0000;

impl Scalar {
    /// The biased exponent: the eleven bits below the sign.
    pub open spec fn exponent(self) -> int {
        self.magnitude() / (HIDDEN_BIT as int)
    }

    /// The fraction: the low 52 bits.
    pub open spec fn fraction(self) -> int {
        self.magnitude() % (HIDDEN_BIT as int)
    }

    /// The significand as a whole number: the fraction, with the hidden bit
    /// above it unless the value is subnormal.
    pub open spec fn significand(self) -> int {
        if self.exponent() == 0 {
            self.fraction()
        } else {
            self.fraction() + HIDDEN_BIT
        }
    }

    /// The power of two by which the significand is multiplied, counted from
    /// that of the subnormal values.
    pub open spec fn scale(self) -> nat {
        if self.exponent() == 0 {
            0
        } else {
            (self.exponent() - 1) as nat
        }
    }

    /// The absolute value, in units of 2^-1074.
    pub open spec fn size(self) -> int {
        self.significand() * pow2(self.scale())
    }

    /// The value, in units of 2^-1074. Of an infinity this is the number that
    /// its bits would stand for if they were a finite value's, which is above
    /// every finite value's.
    pub open spec fn scaled(self) -> int {
        if self.negative() {
            -self.size()
        } else {
            self.size()
        }
    }
}

/// A larger magnitude stands for a larger absolute value.
proof fn size_grows_with_magnitude(a: Scalar, b: Scalar)
    requires
        a.magnitude() < b.magnitude(),
    ensures
        a.size() < b.size(),
{
    let h = HIDDEN_BIT as int;
    let (ea, fa, sa) = (a.exponent(), a.fraction(), a.significand());
    let (eb, fb, sb) = (b.exponent(), b.fraction(), b.significand());
    lemma_fundamental_div_mod(a.magnitude(), h);
    lemma_fundamental_div_mod(b.magnitude(), h);
    assert(0 <= fa < h && 0 <= fb < h);
    assert(0 <= ea <= eb) by (nonlinear_arith)
        requires
            a.magnitude() == h * ea + fa,
            b.magnitude() == h * eb + fb,
            0 <= a.magnitude() < b.magnitude(),
            0 <= fa < h,
            0 <= fb < h,
            h > 0,
    ;
    let pa = pow2(a.scale()) as int;
    let pb = pow2(b.scale()) as int;
    lemma_pow2_pos(a.scale());
    lemma_pow2_pos(b.scale());
    if ea == eb {
        assert(sa < sb);
        assert(sa * pa < sb * pa) by (nonlinear_arith)
            requires
                sa < sb,
                pa > 0,
        ;
    } else {
        if a.scale() < b.scale() {
            lemma_pow2_strictly_increases(a.scale(), b.scale());
        }
        assert(pa <= pb);
        if ea == 0 {
            lemma2_to64();
            assert(pa == 1);
            assert(sa * pa < sb * pb) by (nonlinear_arith)
                requires
                    0 <= sa < h,
                    h <= sb,
                    pa == 1,
                    1 <= pb,
            ;
        } else {
            assert(a.scale() + 1 == ea);
            assert(ea <= b.scale());
            assert(pow2((a.scale() + 1) as nat) == 2 * pow2(a.scale())) by {
                lemma_pow2_adds(a.scale(), 1);
                lemma2_to64();
            }
            if ea < b.scale() {
                lemma_pow2_strictly_increases(ea as nat, b.scale());
            }
            assert(2 * pa <= pb);
            assert(sa * pa < sb * pb) by (nonlinear_arith)
                requires
                    0 <= sa < 2 * h,
                    h <= sb,
                    0 < pa,
                    2 * pa <= pb,
            ;
        }
    }
}

/// The order of scalars is the order of the numbers they stand for: for two
/// scalars of which neither is a NaN, `below`, `at_most` and `same` are `<`,
/// `<=` and `==` of their values.
pub proof fn order_is_by_value(a: Scalar, b: Scalar)
    requires
        !a.nan(),
        !b.nan(),
    ensures
        a.below(b) <==> a.scaled() < b.scaled(),
        a.at_most(b) <==> a.scaled() <= b.scaled(),
        a.same(b) <==> a.scaled() == b.scaled(),
{
    let zero = Scalar(0);
    assert(zero.size() == 0) by {
        assert(zero.exponent() == 0 && zero.fraction() == 0);
        assert(0 * pow2(zero.scale()) == 0) by (nonlinear_arith);
    }
    if a.magnitude() > 0 {
        size_grows_with_magnitude(zero, a);
    }
    if b.magnitude() > 0 {
        size_grows_with_magnitude(zero, b);
    }
    if a.magnitude() < b.magnitude() {
        size_grows_with_magnitude(a, b);
    }
    if b.magnitude() < a.magnitude() {
        size_grows_with_magnitude(b, a);
    }
    if a.magnitude() == b.magnitude() {
        assert(a.size() == b.size());
    }
}

/// Negating a scalar negates the number it stands for, and negating twice
/// gives the scalar back.
pub proof fn negation_mirrors(a: Scalar)
    ensures
        a.negated().scaled() == -a.scaled(),
        a.negated().negated() == a,
        a.negated().nan() == a.nan(),
        a.negated().negative() != a.negative(),
{
    assert(a.negated().magnitude() == a.magnitude());
    if a.magnitude() == 0 {
        assert(a.exponent() == 0 && a.fraction() == 0);
        assert(0 * pow2(a.scale()) == 0) by (nonlinear_arith);
    }
}

/// The number of units of 2^-1074 in one.
pub open spec fn unit() -> int {
    pow2(1074) as int
}

/// One stands for one, and zero for zero.
pub proof fn one_is_one()
    ensures
        Scalar(ONE_BITS).scaled() == unit(),
        Scalar(0).scaled() == 0,
{
    let one = Scalar(ONE_BITS);
    assert(one.exponent() == 1023 && one.fraction() == 0);
    lemma2_to64_rest();
    lemma_pow2_adds(52, 1022);
    let zero = Scalar(0);
    assert(zero.exponent() == 0 && zero.fraction() == 0);
    assert(0 * pow2(zero.scale()) == 0) by (nonlinear_arith);
}

/// The scalar 255 is the byte 255.
pub proof fn full_scale_is_the_full_byte()
    ensures
        Scalar(0x406f_e000_0000_0000).byte() == 255,
{
    let full = Scalar(0x406f_e000_0000_0000);
    assert(full.exponent() == 1030 && full.fraction() == 0xf_e000_0000_0000);
    assert(full.significand() == 255 * 0x2000_0000_0000);
    lemma2_to64_rest();
    lemma_pow2_adds(45, 1029);
    lemma_pow2_pos(1074);
    let p = pow2(1029) as int;
    assert(255 * 0x2000_0000_0000 * p == 255 * (0x2000_0000_0000 * p)) by (nonlinear_arith);
    assert(full.size() == 255 * unit());
    lemma_div_multiples_vanish(255, unit());
    assert(255 * unit() == unit() * 255) by (nonlinear_arith);
}

impl Scalar {
    /// The value as a byte: cut down to a whole number, then held within 0
    /// and 255. A NaN gives 0.
    pub open spec fn byte(self) -> int {
        if self.nan() || self.negative() {
            0
        } else if self.scaled() / unit() > 255 {
            255
        } else {
            self.scaled() / unit()
        }
    }

    /// The value as a byte: cut down to a whole number, then held within 0
    /// and 255. A NaN gives 0.
    pub fn to_u8(self) -> (r: u8)
        ensures
            r == self.byte(),
    {
        if self.is_nan() || self.is_sign_negative() {
            return 0;
        }
        let e: u64 = self.0 / HIDDEN_BIT;
        let f: u64 = self.0 % HIDDEN_BIT;
        proof {
            lemma2_to64();
            lemma2_to64_rest();
            lemma_pow2_pos(self.scale());
            lemma_pow2_pos(1074);
        }
        if e < 1023 {
            proof {
                let sig = self.significand();
                let p = pow2(self.scale()) as int;
                lemma_pow2_adds(53, self.scale());
                if 53 + self.scale() < 1074 {
                    lemma_pow2_strictly_increases(53 + self.scale(), 1074);
                }
                assert(sig * p < pow2(53) * p) by (nonlinear_arith)
                    requires
                        0 <= sig < pow2(53),
                        0 < p,
                ;
                assert(0 <= sig * p) by (nonlinear_arith)
                    requires
                        0 <= sig,
                        0 < p,
                ;
                lemma_small_div_converse(self.size(), unit());
                assert(self.size() / unit() == 0) by (nonlinear_arith)
                    requires
                        0 <= self.size() < unit(),
                ;
            }
            return 0;
        }
        if e > 1030 {
            proof {
                let sig = self.significand();
                let p = pow2(self.scale()) as int;
                lemma_pow2_adds(8, 1074);
                lemma_pow2_adds(52, 1030);
                if 1030 < self.scale() {
                    lemma_pow2_strictly_increases(1030, self.scale());
                }
                assert(sig * p >= pow2(52) * pow2(1030)) by (nonlinear_arith)
                    requires
                        sig >= pow2(52),
                        p >= pow2(1030),
                ;
                assert(self.size() / unit() >= 256) by (nonlinear_arith)
                    requires
                        self.size() >= 256 * unit(),
                        unit() > 0,
                ;
            }
            return 255;
        }
        let sig: u64 = f + HIDDEN_BIT;
        let shift: u64 = 1075 - e;
        let q: u64 = sig >> shift;
        proof {
            let a = pow2(self.scale()) as int;
            let b = pow2(shift as nat) as int;
            lemma_u64_shr_is_div(sig, shift);
            lemma_pow2_pos(shift as nat);
            lemma_pow2_adds(self.scale(), shift as nat);
            assert(a * b == unit());
            lemma_div_multiples_vanish(sig as int, a);
            assert(sig * a == a * sig) by (nonlinear_arith);
            assert(0 <= sig * a) by (nonlinear_arith)
                requires
                    0 <= sig,
                    0 < a,
            ;
            lemma_div_denominator(sig * a, a, b);
            assert(self.size() / unit() == sig as int / b);
            if 45 < shift {
                lemma_pow2_strictly_increases(45, shift as nat);
            }
            assert(sig as int / b < 256) by (nonlinear_arith)
                requires
                    0 <= sig < 256 * pow2(45),
                    b >= pow2(45),
                    pow2(45) > 0,
            ;
        }
        q as u8
    }
}

} // verus!
