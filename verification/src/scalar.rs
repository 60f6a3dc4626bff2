//! Scalars: IEEE-754 binary64 values carried as their 64 bits.
//!
//! The library never does rounding arithmetic. It orders, negates, clamps and
//! quantises the values it is handed, and all of that is decided on the bits.

use vstd::prelude::*;
use vstd::std_specs::cmp::PartialEqSpecImpl;
use vstd::std_specs::cmp::PartialOrdSpecImpl;
use vstd::std_specs::ops::NegSpecImpl;
use core::cmp::Ordering;
use core::ops::Neg;

verus! {

/// The bit that carries the sign.
pub const SIGN_BIT: u64 = 0x8000_0000_0000_0000;

/// The magnitude bits of an infinity; every larger magnitude is a NaN.
pub const INFINITY_BITS: u64 = 0x7ff0_0000_0000_0000;

/// The bits of positive zero.
pub const ZERO_BITS: u64 = 0;

/// The bits of one.
pub const ONE_BITS: u64 = 0x3ff0_0000_0000_0000;

/// The bits of two.
pub const TWO_BITS: u64 = 0x4000_0000_0000_0000;

/// The bits of four.
pub const FOUR_BITS: u64 = 0x4010_0000_0000_0000;

/// The bits of minus one.
pub const MINUS_ONE_BITS: u64 = 0xbff0_0000_0000_0000;

/// The bits of the largest finite value.
pub const MAX_BITS: u64 = 0x7fef_ffff_ffff_ffff;

/// A binary64 value, held as its bits.
#[derive(Clone, Copy, Debug)]
pub struct Scalar(pub u64);

impl Scalar {
    /// The sign bit is set (true of `-0` and of some NaNs as well).
    pub open spec fn negative(self) -> bool {
        self.0 >= SIGN_BIT
    }

    /// The bits below the sign bit.
    pub open spec fn magnitude(self) -> int {
        if self.0 >= SIGN_BIT {
            self.0 - SIGN_BIT
        } else {
            self.0 as int
        }
    }

    /// Not a number.
    pub open spec fn nan(self) -> bool {
        self.magnitude() > INFINITY_BITS
    }

    /// Neither infinite nor a NaN.
    pub open spec fn finite(self) -> bool {
        self.magnitude() < INFINITY_BITS
    }

    /// The place of a value that is not a NaN in the order of all such values:
    /// the magnitude, counted downwards from zero where the sign is set, so
    /// that both zeros share one place.
    pub open spec fn rank(self) -> int {
        if self.negative() {
            -self.magnitude()
        } else {
            self.magnitude()
        }
    }

    /// `self < other` as IEEE-754 orders them: false where either is a NaN.
    pub open spec fn below(self, other: Scalar) -> bool {
        !self.nan() && !other.nan() && self.rank() < other.rank()
    }

    /// `self <= other` as IEEE-754 orders them: false where either is a NaN.
    pub open spec fn at_most(self, other: Scalar) -> bool {
        !self.nan() && !other.nan() && self.rank() <= other.rank()
    }

    /// `self == other` as IEEE-754 compares them: the zeros are equal to each
    /// other, and a NaN is equal to nothing.
    pub open spec fn same(self, other: Scalar) -> bool {
        !self.nan() && !other.nan() && self.rank() == other.rank()
    }

    /// Equal as IEEE-754 compares them, or both a NaN: alike but for what
    /// no comparison can tell apart.
    pub open spec fn alike(self, other: Scalar) -> bool {
        self.same(other) || (self.nan() && other.nan())
    }

    /// The value with the opposite sign.
    pub open spec fn negated(self) -> Scalar {
        if self.0 >= SIGN_BIT {
            Scalar((self.0 - SIGN_BIT) as u64)
        } else {
            Scalar((self.0 + SIGN_BIT) as u64)
        }
    }

    /// The smaller of two values; where one is a NaN, the other.
    pub open spec fn lesser(self, other: Scalar) -> Scalar {
        if self.below(other) || other.nan() {
            self
        } else {
            other
        }
    }

    /// The larger of two values; where one is a NaN, the other.
    pub open spec fn greater(self, other: Scalar) -> Scalar {
        if other.below(self) || other.nan() {
            self
        } else {
            other
        }
    }

    /// The value brought into `[0, 1]`; a NaN becomes one.
    pub open spec fn clamped(self) -> Scalar {
        self.lesser(Scalar(ONE_BITS)).greater(Scalar(ZERO_BITS))
    }

    /// The value whose bits are `bits`.
    pub fn from_bits(bits: u64) -> (r: Scalar)
        ensures
            r == Scalar(bits),
    {
        Scalar(bits)
    }

    /// The bits of the value.
    pub fn to_bits(self) -> (r: u64)
        ensures
            r == self.0,
    {
        self.0
    }

    /// Positive zero.
    pub fn zero() -> (r: Scalar)
        ensures
            r == Scalar(ZERO_BITS),
    {
        Scalar(ZERO_BITS)
    }

    /// One.
    pub fn one() -> (r: Scalar)
        ensures
            r == Scalar(ONE_BITS),
    {
        Scalar(ONE_BITS)
    }

    /// Whether the sign bit is set.
    pub fn is_sign_negative(self) -> (r: bool)
        ensures
            r == self.negative(),
    {
        self.0 >= SIGN_BIT
    }

    /// The bits below the sign bit.
    fn magnitude_bits(self) -> (r: u64)
        ensures
            r == self.magnitude(),
    {
        if self.0 >= SIGN_BIT {
            self.0 - SIGN_BIT
        } else {
            self.0
        }
    }

    /// Whether the value is a NaN.
    pub fn is_nan(self) -> (r: bool)
        ensures
            r == self.nan(),
    {
        self.magnitude_bits() > INFINITY_BITS
    }

    /// Whether the value is neither infinite nor a NaN.
    pub fn is_finite(self) -> (r: bool)
        ensures
            r == self.finite(),
    {
        self.magnitude_bits() < INFINITY_BITS
    }

    /// `self < other`.
    fn precedes(self, other: Scalar) -> (r: bool)
        ensures
            r == self.below(other),
    {
        if self.is_nan() || other.is_nan() {
            return false;
        }
        let a: u64 = self.magnitude_bits();
        let b: u64 = other.magnitude_bits();
        if self.is_sign_negative() {
            if other.is_sign_negative() {
                b < a
            } else {
                a > 0 || b > 0
            }
        } else {
            if other.is_sign_negative() {
                false
            } else {
                a < b
            }
        }
    }

    /// The smaller of the two; where one is a NaN, the other.
    pub fn min(self, other: Scalar) -> (r: Scalar)
        ensures
            r == self.lesser(other),
    {
        if self < other || other.is_nan() {
            self
        } else {
            other
        }
    }

    /// The larger of the two; where one is a NaN, the other.
    pub fn max(self, other: Scalar) -> (r: Scalar)
        ensures
            r == self.greater(other),
    {
        if other < self || other.is_nan() {
            self
        } else {
            other
        }
    }

    /// The value brought into `[0, 1]`; a NaN becomes one.
    pub fn saturate(self) -> (r: Scalar)
        ensures
            r == self.clamped(),
            Scalar(ZERO_BITS).at_most(r),
            r.at_most(Scalar(ONE_BITS)),
    {
        self.min(Scalar::one()).max(Scalar::zero())
    }
}

impl PartialEq for Scalar {
    /// `self == other` as IEEE-754 compares them.
    fn eq(&self, other: &Scalar) -> (r: bool) {
        !self.is_nan() && !other.is_nan() && !self.precedes(*other) && !other.precedes(*self)
    }
}

impl PartialEqSpecImpl for Scalar {
    open spec fn obeys_eq_spec() -> bool {
        true
    }

    open spec fn eq_spec(&self, other: &Scalar) -> bool {
        self.same(*other)
    }
}

impl PartialOrd for Scalar {
    /// How `self` stands to `other` as IEEE-754 orders them: in no way where
    /// either is a NaN.
    fn partial_cmp(&self, other: &Scalar) -> (r: Option<Ordering>) {
        if self.is_nan() || other.is_nan() {
            None
        } else if self.precedes(*other) {
            Some(Ordering::Less)
        } else if other.precedes(*self) {
            Some(Ordering::Greater)
        } else {
            Some(Ordering::Equal)
        }
    }
}

impl PartialOrdSpecImpl for Scalar {
    open spec fn obeys_partial_cmp_spec() -> bool {
        true
    }

    open spec fn partial_cmp_spec(&self, other: &Scalar) -> Option<Ordering> {
        if self.below(*other) {
            Some(Ordering::Less)
        } else if other.below(*self) {
            Some(Ordering::Greater)
        } else if self.same(*other) {
            Some(Ordering::Equal)
        } else {
            None
        }
    }
}

impl Neg for Scalar {
    type Output = Scalar;

    /// The value with the opposite sign; a NaN stays a NaN.
    fn neg(self) -> (r: Scalar) {
        if self.0 >= SIGN_BIT {
            Scalar(self.0 - SIGN_BIT)
        } else {
            Scalar(self.0 + SIGN_BIT)
        }
    }
}

impl NegSpecImpl for Scalar {
    open spec fn obeys_neg_spec() -> bool {
        true
    }

    open spec fn neg_req(self) -> bool {
        true
    }

    open spec fn neg_spec(self) -> Scalar {
        self.negated()
    }
}

} // verus!
