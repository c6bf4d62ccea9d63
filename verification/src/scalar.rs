//! Single-precision numbers carried by their IEEE-754 bit pattern.
//!
//! The library never computes with a floating-point unit. It stores, moves and
//! compares the numbers that its callers measure, and every comparison is
//! defined over the exact value that a bit pattern denotes.

use vstd::arithmetic::power2::*;
use vstd::prelude::*;

verus! {

/// Bit pattern of the sign bit.
pub const SIGN_BIT: u32 = 0x8000_0000;

/// Bit pattern of positive infinity; every larger magnitude is a NaN.
pub const INFINITY_BITS: u32 = 0x7f80_0000;

/// Bit pattern of `0.0`.
pub const ZERO_BITS: u32 = 0x0000_0000;

/// Bit pattern of `1.0`.
pub const ONE_BITS: u32 = 0x3f80_0000;

/// Bit pattern of the single-precision number nearest to `0.01`.
pub const HUNDREDTH_BITS: u32 = 0x3c23_d70a;

/// Bit pattern of the single-precision number nearest to `0.05`.
pub const TWENTIETH_BITS: u32 = 0x3d4c_cccd;

/// Bit pattern of the single-precision number nearest to `0.1`.
pub const TENTH_BITS: u32 = 0x3dcc_cccd;

/// Bit pattern of the single-precision number nearest to `0.2`.
pub const FIFTH_BITS: u32 = 0x3e4c_cccd;

/// Bit pattern of the single-precision number nearest to `0.3`.
pub const THREE_TENTHS_BITS: u32 = 0x3e99_999a;

/// Bit pattern of the single-precision number nearest to `0.33`.
pub const LOW_LIMIT_BITS: u32 = 0x3ea8_f5c3;

/// Bit pattern of `0.5`.
pub const HALF_BITS: u32 = 0x3f00_0000;

/// Bit pattern of the single-precision number nearest to `0.66`.
pub const MEDIUM_LIMIT_BITS: u32 = 0x3f28_f5c3;

/// Bit pattern of the single-precision number nearest to `0.9`.
pub const NINE_TENTHS_BITS: u32 = 0x3f66_6666;

/// Bit pattern of `30.0`.
pub const THIRTY_BITS: u32 = 0x41f0_0000;

/// Bit pattern of `120.0`.
pub const ONE_HUNDRED_TWENTY_BITS: u32 = 0x42f0_0000;

/// A single-precision number, held as its bit pattern.
#[derive(Clone, Copy, Debug, PartialEq, Eq, Structural)]
pub struct Scalar {
    pub bits: u32,
}

/// The value of a magnitude (a bit pattern without its sign), multiplied by
/// 2^149 so that every finite number is an integer. Infinity is given the
/// value that the next binade would start with, above every finite number.
pub open spec fn magnitude_scaled(m: int) -> int {
    let exponent = m / 0x80_0000;
    let fraction = m % 0x80_0000;
    if exponent == 0 {
        fraction
    } else {
        (0x80_0000 + fraction) * pow2((exponent - 1) as nat)
    }
}

impl Scalar {
    /// The number with the given bit pattern.
    pub open spec fn of(bits: u32) -> Scalar {
        Scalar { bits }
    }

    /// The bit pattern without its sign bit.
    pub open spec fn magnitude(self) -> int {
        if self.bits >= 0x8000_0000 {
            self.bits - 0x8000_0000
        } else {
            self.bits as int
        }
    }

    /// The sign bit is set. This holds of `-0.0` as well.
    pub open spec fn is_negative(self) -> bool {
        self.bits >= 0x8000_0000
    }

    /// The pattern denotes no number.
    pub open spec fn is_nan(self) -> bool {
        self.magnitude() > 0x7f80_0000
    }

    /// The pattern denotes a number that is neither infinite nor a NaN.
    pub open spec fn is_finite(self) -> bool {
        self.magnitude() < 0x7f80_0000
    }

    /// The denoted number times 2^149; meaningful unless `is_nan`.
    pub open spec fn scaled(self) -> int {
        if self.is_negative() {
            -magnitude_scaled(self.magnitude())
        } else {
            magnitude_scaled(self.magnitude())
        }
    }

    /// `self < other` as IEEE-754 orders numbers: false when either is a NaN.
    pub open spec fn lt(self, other: Scalar) -> bool {
        !self.is_nan() && !other.is_nan() && self.scaled() < other.scaled()
    }

    /// `self <= other` as IEEE-754 orders numbers: false when either is a NaN.
    pub open spec fn le(self, other: Scalar) -> bool {
        !self.is_nan() && !other.is_nan() && self.scaled() <= other.scaled()
    }

    /// The number lies in the closed interval from 0 to 1.
    pub open spec fn in_unit_interval(self) -> bool {
        Scalar::of(ZERO_BITS).le(self) && self.le(Scalar::of(ONE_BITS))
    }

    /// The larger of two numbers, where a NaN gives way to the other argument.
    pub open spec fn spec_max(self, other: Scalar) -> Scalar {
        if self.is_nan() {
            other
        } else if other.is_nan() {
            self
        } else if self.lt(other) {
            other
        } else {
            self
        }
    }

    /// The smaller of two numbers, where a NaN gives way to the other argument.
    pub open spec fn spec_min(self, other: Scalar) -> Scalar {
        if self.is_nan() {
            other
        } else if other.is_nan() {
            self
        } else if other.lt(self) {
            other
        } else {
            self
        }
    }

    /// `self` restricted to the interval from `low` to `high`; a NaN stays.
    pub open spec fn spec_clamp(self, low: Scalar, high: Scalar) -> Scalar {
        if self.lt(low) {
            low
        } else if high.lt(self) {
            high
        } else {
            self
        }
    }

    /// The number without its sign.
    pub open spec fn spec_abs(self) -> Scalar {
        Scalar { bits: self.magnitude() as u32 }
    }

    /// The sign-and-magnitude integer by which the patterns are ordered.
    pub open spec fn order_key(self) -> int {
        if self.is_negative() {
            -self.magnitude()
        } else {
            self.magnitude()
        }
    }

    /// The number with the given bit pattern.
    pub fn from_bits(bits: u32) -> (r: Scalar)
        ensures
            r == Scalar::of(bits),
    {
        Scalar { bits }
    }

    /// The bit pattern of the number.
    pub fn to_bits(self) -> (r: u32)
        ensures
            r == self.bits,
    {
        self.bits
    }

    /// The number `0.0`.
    pub fn zero() -> (r: Scalar)
        ensures
            r == Scalar::of(ZERO_BITS),
    {
        Scalar { bits: ZERO_BITS }
    }

    /// The number `1.0`.
    pub fn one() -> (r: Scalar)
        ensures
            r == Scalar::of(ONE_BITS),
    {
        Scalar { bits: ONE_BITS }
    }

    /// The bit pattern without its sign bit.
    fn magnitude_bits(self) -> (r: u32)
        ensures
            r == self.magnitude(),
            r < 0x8000_0000,
    {
        if self.bits >= SIGN_BIT {
            self.bits - SIGN_BIT
        } else {
            self.bits
        }
    }

    /// Whether the sign bit is set.
    pub fn has_sign(self) -> (r: bool)
        ensures
            r == self.is_negative(),
    {
        self.bits >= SIGN_BIT
    }

    /// Whether the pattern denotes no number.
    pub fn nan(self) -> (r: bool)
        ensures
            r == self.is_nan(),
    {
        self.magnitude_bits() > INFINITY_BITS
    }

    /// Whether the pattern denotes a number that is neither infinite nor a NaN.
    pub fn finite(self) -> (r: bool)
        ensures
            r == self.is_finite(),
    {
        self.magnitude_bits() < INFINITY_BITS
    }

    /// The integer by which the patterns are ordered.
    fn key(self) -> (r: i64)
        ensures
            r == self.order_key(),
    {
        let m: u32 = self.magnitude_bits();
        let wide: i64 = m as i64;
        if self.bits >= SIGN_BIT {
            -wide
        } else {
            wide
        }
    }

    /// Whether `self < other`; false when either is a NaN.
    pub fn less_than(self, other: Scalar) -> (r: bool)
        ensures
            r == self.lt(other),
    {
        if self.nan() || other.nan() {
            return false;
        }
        proof {
            lemma_key_orders_values(self, other);
        }
        self.key() < other.key()
    }

    /// Whether `self <= other`; false when either is a NaN.
    pub fn less_equal(self, other: Scalar) -> (r: bool)
        ensures
            r == self.le(other),
    {
        if self.nan() || other.nan() {
            return false;
        }
        proof {
            lemma_key_orders_values(self, other);
        }
        self.key() <= other.key()
    }

    /// The larger of two numbers; a NaN gives way to the other argument.
    pub fn max(self, other: Scalar) -> (r: Scalar)
        ensures
            r == self.spec_max(other),
    {
        if self.nan() {
            other
        } else if other.nan() {
            self
        } else if self.less_than(other) {
            other
        } else {
            self
        }
    }

    /// The smaller of two numbers; a NaN gives way to the other argument.
    pub fn min(self, other: Scalar) -> (r: Scalar)
        ensures
            r == self.spec_min(other),
    {
        if self.nan() {
            other
        } else if other.nan() {
            self
        } else if other.less_than(self) {
            other
        } else {
            self
        }
    }

    /// `self` restricted to the interval from `low` to `high`; a NaN stays.
    pub fn clamp(self, low: Scalar, high: Scalar) -> (r: Scalar)
        requires
            low.le(high),
        ensures
            r == self.spec_clamp(low, high),
            self.is_nan() ==> r == self,
            !self.is_nan() ==> low.le(r) && r.le(high),
    {
        if self.less_than(low) {
            low
        } else if high.less_than(self) {
            high
        } else {
            self
        }
    }

    /// The number without its sign: the size of the number.
    pub fn abs(self) -> (r: Scalar)
        ensures
            r == self.spec_abs(),
            !r.is_negative(),
            r.is_nan() == self.is_nan(),
            r.scaled() == if self.scaled() < 0 {
                -self.scaled()
            } else {
                self.scaled()
            },
    {
        proof {
            lemma_magnitude_scaled_sign(self.magnitude());
        }
        Scalar { bits: self.magnitude_bits() }
    }

    /// `self` restricted to the interval from 0 to 1.
    pub fn clamp_unit(self) -> (r: Scalar)
        ensures
            r == self.spec_clamp(Scalar::of(ZERO_BITS), Scalar::of(ONE_BITS)),
            self.is_nan() ==> r == self,
            !self.is_nan() ==> r.in_unit_interval(),
    {
        proof {
            lemma_unit_bounds();
        }
        self.clamp(Scalar::zero(), Scalar::one())
    }
}

/// A larger magnitude denotes a larger value.
pub proof fn lemma_magnitude_scaled_increases(m1: int, m2: int)
    requires
        0 <= m1 < m2 < 0x8000_0000,
    ensures
        0 <= magnitude_scaled(m1) < magnitude_scaled(m2),
{
    let e1 = m1 / 0x80_0000;
    let f1 = m1 % 0x80_0000;
    let e2 = m2 / 0x80_0000;
    let f2 = m2 % 0x80_0000;
    assert(m1 == e1 * 0x80_0000 + f1);
    assert(m2 == e2 * 0x80_0000 + f2);
    assert(0 <= e1 <= e2);
    if e1 == e2 {
        assert(f1 < f2);
        if e1 != 0 {
            let power = pow2((e1 - 1) as nat) as int;
            lemma_pow2_pos((e1 - 1) as nat);
            assert((0x80_0000 + f1) * power < (0x80_0000 + f2) * power) by (nonlinear_arith)
                requires
                    power > 0,
                    0 <= f1 < f2,
            ;
            assert(0 <= (0x80_0000 + f1) * power) by (nonlinear_arith)
                requires
                    power > 0,
                    0 <= f1,
            ;
        }
    } else {
        let upper_power = pow2((e2 - 1) as nat) as int;
        lemma_pow2_pos((e2 - 1) as nat);
        assert(0x80_0000 * upper_power <= (0x80_0000 + f2) * upper_power) by (nonlinear_arith)
            requires
                upper_power > 0,
                0 <= f2,
        ;
        if e1 == 0 {
            assert(0x80_0000 * 1 <= 0x80_0000 * upper_power) by (nonlinear_arith)
                requires
                    upper_power >= 1,
            ;
        } else {
            let lower_power = pow2((e1 - 1) as nat) as int;
            lemma_pow2_pos((e1 - 1) as nat);
            lemma_pow2_unfold(e1 as nat);
            assert(pow2(e1 as nat) == 2 * lower_power);
            if e1 < e2 - 1 {
                lemma_pow2_strictly_increases(e1 as nat, (e2 - 1) as nat);
            }
            assert(2 * lower_power <= upper_power);
            assert((0x80_0000 + f1) * lower_power < 0x80_0000 * (2 * lower_power)) by (nonlinear_arith)
                requires
                    lower_power > 0,
                    0 <= f1 < 0x80_0000,
            ;
            assert(0x80_0000 * (2 * lower_power) <= 0x80_0000 * upper_power) by (nonlinear_arith)
                requires
                    2 * lower_power <= upper_power,
            ;
            assert(0 <= (0x80_0000 + f1) * lower_power) by (nonlinear_arith)
                requires
                    lower_power > 0,
                    0 <= f1,
            ;
        }
    }
}

/// The value of a magnitude is never negative, and is zero only for zero.
pub proof fn lemma_magnitude_scaled_sign(m: int)
    requires
        0 <= m < 0x8000_0000,
    ensures
        magnitude_scaled(m) >= 0,
        magnitude_scaled(m) == 0 <==> m == 0,
{
    assert(magnitude_scaled(0) == 0);
    if m > 0 {
        lemma_magnitude_scaled_increases(0, m);
    }
}

/// Sign-and-magnitude order on the bit patterns is the order of the values.
pub proof fn lemma_key_orders_values(a: Scalar, b: Scalar)
    ensures
        a.order_key() < b.order_key() <==> a.scaled() < b.scaled(),
        a.order_key() == b.order_key() <==> a.scaled() == b.scaled(),
{
    let ma = a.magnitude();
    let mb = b.magnitude();
    lemma_magnitude_scaled_sign(ma);
    lemma_magnitude_scaled_sign(mb);
    if ma < mb {
        lemma_magnitude_scaled_increases(ma, mb);
    } else if mb < ma {
        lemma_magnitude_scaled_increases(mb, ma);
    }
}

/// Zero is below one, so the unit interval is not empty.
pub proof fn lemma_unit_bounds()
    ensures
        Scalar::of(ZERO_BITS).le(Scalar::of(ONE_BITS)),
        Scalar::of(ZERO_BITS).scaled() == 0,
{
    let zero = Scalar { bits: ZERO_BITS };
    let one = Scalar { bits: ONE_BITS };
    lemma_key_orders_values(zero, one);
    assert(zero.order_key() == 0);
    assert(one.order_key() == 0x3f80_0000);
}

/// Of two numbers, one is below the other or they are equal in value.
pub proof fn lemma_order_total(a: Scalar, b: Scalar)
    requires
        !a.is_nan(),
        !b.is_nan(),
    ensures
        a.lt(b) || b.le(a),
        !(a.lt(b) && b.le(a)),
{
}

} // verus!
