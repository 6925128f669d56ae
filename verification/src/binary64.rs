//! IEEE 754 binary64 numbers, held as their bit patterns.
//!
//! Speeds, exponents and accumulators are real numbers that this library only
//! stores, compares and truncates; the arithmetic on them is the host's. All
//! that is done here is integer work on the sign, exponent and fraction fields.

use vstd::arithmetic::div_mod::*;
use vstd::arithmetic::mul::*;
use vstd::arithmetic::power2::*;
use vstd::prelude::*;

verus! {

/// Weight of the lowest exponent bit: everything below it is fraction.
pub const EXPONENT_UNIT: u64 = 0x10_0000_0000_0000;

/// The sign bit; a pattern at or above it stands for a negative number.
pub const SIGN_UNIT: u64 = 0x8000_0000_0000_0000;

/// A binary64 number, as the pattern of its bits. Equality goes by the pattern,
/// `less_than` and `is_zero` go by the number.
#[derive(Clone, Copy, Debug, PartialEq, Eq, Structural)]
pub struct Binary64 {
    pub bits: u64,
}

impl Binary64 {
    /// The pattern without its sign bit.
    pub open spec fn magnitude(self) -> int {
        self.bits as int % SIGN_UNIT as int
    }

    /// The biased exponent field.
    pub open spec fn exponent(self) -> int {
        self.magnitude() / EXPONENT_UNIT as int
    }

    /// The fraction field.
    pub open spec fn fraction(self) -> int {
        self.magnitude() % EXPONENT_UNIT as int
    }

    pub open spec fn negative(self) -> bool {
        self.bits >= SIGN_UNIT
    }

    pub open spec fn spec_is_nan(self) -> bool {
        self.exponent() == 2047 && self.fraction() != 0
    }

    pub open spec fn spec_is_finite(self) -> bool {
        self.exponent() < 2047
    }

    /// The absolute value, in units of the smallest positive number (two to
    /// the power of -1074), of which every finite number is a whole multiple.
    /// The infinities come out above every finite number.
    pub open spec fn abs_units(self) -> int {
        if self.exponent() == 0 {
            self.fraction()
        } else {
            (EXPONENT_UNIT + self.fraction()) * pow2((self.exponent() - 1) as nat)
        }
    }

    /// The value, in the same units as [`Binary64::abs_units`].
    pub open spec fn units(self) -> int {
        if self.negative() {
            -self.abs_units()
        } else {
            self.abs_units()
        }
    }

    /// The number of whole ones in the absolute value.
    pub open spec fn abs_whole(self) -> int {
        self.abs_units() / pow2(1074) as int
    }

    /// The value rounded toward zero and clamped to the `i32` range; a NaN
    /// counts as zero.
    pub open spec fn spec_whole(self) -> int {
        if self.spec_is_nan() {
            0
        } else if self.negative() {
            if self.abs_whole() > 0x8000_0000 { i32::MIN as int } else { -self.abs_whole() }
        } else {
            if self.abs_whole() > i32::MAX { i32::MAX as int } else { self.abs_whole() }
        }
    }

    /// Positive zero.
    pub open spec fn spec_zero() -> Binary64 {
        Binary64 { bits: 0 }
    }

    /// Positive zero.
    pub fn zero() -> (r: Binary64)
        ensures
            r == Binary64::spec_zero(),
            r.units() == 0,
    {
        Binary64 { bits: 0 }
    }

    /// Whether the number is neither infinite nor a NaN.
    pub fn is_finite(self) -> (r: bool)
        ensures
            r == self.spec_is_finite(),
    {
        (self.bits % SIGN_UNIT) / EXPONENT_UNIT < 2047
    }

    /// Whether the number is a NaN.
    pub fn is_nan(self) -> (r: bool)
        ensures
            r == self.spec_is_nan(),
    {
        let magnitude: u64 = self.bits % SIGN_UNIT;
        magnitude / EXPONENT_UNIT == 2047 && magnitude % EXPONENT_UNIT != 0
    }

    /// Whether the number is zero, of either sign.
    pub fn is_zero(self) -> (r: bool)
        ensures
            r == (self.units() == 0),
    {
        proof {
            self.lemma_abs_units_zero();
        }
        self.bits % SIGN_UNIT == 0
    }

    /// Whether the number is above zero.
    pub fn is_positive(self) -> (r: bool)
        ensures
            r == (!self.spec_is_nan() && self.units() > 0),
    {
        proof {
            self.lemma_abs_units_zero();
        }
        !self.is_nan() && self.bits < SIGN_UNIT && self.bits != 0
    }

    /// Whether the number is below `other`; false when either is a NaN.
    pub fn less_than(self, other: Binary64) -> (r: bool)
        ensures
            r == (!self.spec_is_nan() && !other.spec_is_nan() && self.units() < other.units()),
    {
        proof {
            self.lemma_abs_units_zero();
            other.lemma_abs_units_zero();
            lemma_abs_units_ordered(self, other);
            lemma_abs_units_ordered(other, self);
        }
        if self.is_nan() || other.is_nan() {
            return false;
        }
        let a: u64 = self.bits % SIGN_UNIT;
        let b: u64 = other.bits % SIGN_UNIT;
        if self.bits >= SIGN_UNIT {
            if other.bits >= SIGN_UNIT {
                b < a
            } else {
                a != 0 || b != 0
            }
        } else if other.bits >= SIGN_UNIT {
            false
        } else {
            a < b
        }
    }

    /// The number rounded toward zero, clamped to the `i32` range; zero for a
    /// NaN.
    pub fn whole(self) -> (r: i32)
        ensures
            r == self.spec_whole(),
    {
        if self.is_nan() {
            return 0;
        }
        let magnitude: u64 = self.bits % SIGN_UNIT;
        let exponent: u64 = magnitude / EXPONENT_UNIT;
        let fraction: u64 = magnitude % EXPONENT_UNIT;
        let negative: bool = self.bits >= SIGN_UNIT;
        if exponent < 1023 {
            proof {
                self.lemma_below_one();
            }
            0
        } else if exponent >= 1054 {
            proof {
                self.lemma_saturates();
            }
            if negative { i32::MIN } else { i32::MAX }
        } else {
            proof {
                self.lemma_in_range();
            }
            let shift: u64 = 1075 - exponent;
            let divisor: u64 = power_of_two(shift);
            let whole: u64 = (EXPONENT_UNIT + fraction) / divisor;
            if negative { -(whole as i32) } else { whole as i32 }
        }
    }

    /// Only the two zeros have no magnitude.
    pub proof fn lemma_abs_units_zero(self)
        ensures
            self.abs_units() >= 0,
            self.abs_units() == 0 <==> self.magnitude() == 0,
    {
        if self.exponent() > 0 {
            lemma_pow2_pos((self.exponent() - 1) as nat);
            lemma_mul_strict_inequality(0, EXPONENT_UNIT + self.fraction(), pow2((self.exponent() - 1) as nat) as int);
        }
    }

    /// Below an exponent field of 1023 the absolute value is less than one.
    proof fn lemma_below_one(self)
        requires
            self.exponent() < 1023,
        ensures
            self.abs_whole() == 0,
    {
        self.lemma_abs_units_zero();
        lemma_pow2_pos(1074);
        lemma_units_below(self, 1074);
        lemma_basic_div(self.abs_units(), pow2(1074) as int);
    }

    /// From an exponent field of 1054 on the absolute value is at least two to
    /// the power of 31.
    proof fn lemma_saturates(self)
        requires
            self.exponent() >= 1054,
        ensures
            self.abs_whole() >= 0x8000_0000,
    {
        let e = self.exponent();
        let p = pow2((e - 1) as nat) as int;
        lemma_pow2_pos(1074);
        lemma_pow2_pos((e - 1) as nat);
        lemma2_to64();
        lemma2_to64_rest();
        lemma_pow2_adds(31, 1074);
        lemma_pow2_adds(52, (e - 1) as nat);
        if 1105 < e + 51 {
            lemma_pow2_strictly_increases(1105, (e + 51) as nat);
        }
        lemma_mul_inequality(EXPONENT_UNIT as int, EXPONENT_UNIT + self.fraction(), p);
        assert(self.abs_units() >= 0x8000_0000 * pow2(1074));
        lemma_div_multiples_vanish(0x8000_0000, pow2(1074) as int);
        lemma_mul_is_commutative(0x8000_0000, pow2(1074) as int);
        lemma_div_is_ordered(0x8000_0000int * pow2(1074), self.abs_units(), pow2(1074) as int);
    }

    /// In between, the whole part is the significand over a power of two.
    proof fn lemma_in_range(self)
        requires
            1023 <= self.exponent() < 1054,
        ensures
            self.abs_whole() == (EXPONENT_UNIT + self.fraction()) / pow2((1075 - self.exponent()) as nat) as int,
            0 <= self.abs_whole() < 0x8000_0000,
    {
        let e = self.exponent();
        let s = EXPONENT_UNIT + self.fraction();
        let low = pow2((e - 1) as nat) as int;
        let high = pow2((1075 - e) as nat) as int;
        lemma_pow2_pos((e - 1) as nat);
        lemma_pow2_pos((1075 - e) as nat);
        lemma_pow2_adds((e - 1) as nat, (1075 - e) as nat);
        assert(low * high == pow2(1074));
        lemma_div_denominator(s * low, low, high);
        lemma_div_multiples_vanish(s, low);
        lemma_mul_is_commutative(s, low);
        assert(self.abs_whole() == s / high);
        lemma2_to64();
        lemma2_to64_rest();
        if e < 1053 {
            lemma_pow2_strictly_increases(22, (1075 - e) as nat);
        }
        assert(high >= 0x40_0000);
        lemma_div_is_ordered_by_denominator(s, 0x40_0000, high);
        assert(s < 0x20_0000_0000_0000);
        lemma_div_pos_is_pos(s, high);
    }
}

/// The power of two with a small exponent.
fn power_of_two(exponent: u64) -> (r: u64)
    requires
        exponent < 64,
    ensures
        r == pow2(exponent as nat),
        r > 0,
{
    proof {
        lemma_pow2_pos(exponent as nat);
        vstd::bits::lemma_u64_pow2_no_overflow(exponent as nat);
        vstd::bits::lemma_u64_shl_is_mul(1, exponent);
    }
    1u64 << exponent
}

/// A number whose exponent field is below `limit` is below two to the power of
/// `limit`, in units.
proof fn lemma_units_below(x: Binary64, limit: nat)
    requires
        x.exponent() + 51 < limit,
    ensures
        x.abs_units() < pow2(limit),
{
    lemma2_to64();
    lemma2_to64_rest();
    let e = x.exponent();
    if e == 0 {
        if limit > 52 {
            lemma_pow2_strictly_increases(52, limit);
        }
    } else {
        let p = pow2((e - 1) as nat) as int;
        lemma_pow2_pos((e - 1) as nat);
        lemma_pow2_adds(53, (e - 1) as nat);
        lemma_mul_strict_inequality(EXPONENT_UNIT + x.fraction(), 0x20_0000_0000_0000, p);
        if e + 52 < limit {
            lemma_pow2_strictly_increases((e + 52) as nat, limit);
        }
    }
}

/// Comparing patterns without the sign compares absolute values.
pub proof fn lemma_abs_units_ordered(a: Binary64, b: Binary64)
    ensures
        a.magnitude() < b.magnitude() ==> a.abs_units() < b.abs_units(),
        a.magnitude() == b.magnitude() ==> a.abs_units() == b.abs_units(),
{
    if a.magnitude() < b.magnitude() {
        let ea = a.exponent();
        let eb = b.exponent();
        assert(ea <= eb);
        if ea == eb {
            if ea > 0 {
                lemma_pow2_pos((ea - 1) as nat);
                lemma_mul_strict_inequality(EXPONENT_UNIT + a.fraction(), EXPONENT_UNIT + b.fraction(), pow2((ea - 1) as nat) as int);
            }
        } else {
            lemma_units_below(a, (ea + 52) as nat);
            lemma2_to64();
            lemma2_to64_rest();
            let p = pow2((eb - 1) as nat) as int;
            lemma_pow2_pos((eb - 1) as nat);
            lemma_pow2_adds(52, (eb - 1) as nat);
            lemma_mul_inequality(EXPONENT_UNIT as int, EXPONENT_UNIT + b.fraction(), p);
            if ea + 52 < eb + 51 {
                lemma_pow2_strictly_increases((ea + 52) as nat, (eb + 51) as nat);
            }
        }
    }
}

/// Rounding toward zero keeps the order of numbers.
pub proof fn lemma_whole_ordered(a: Binary64, b: Binary64)
    requires
        !a.spec_is_nan(),
        !b.spec_is_nan(),
        a.units() <= b.units(),
    ensures
        a.spec_whole() <= b.spec_whole(),
{
    let one = pow2(1074) as int;
    lemma_pow2_pos(1074);
    a.lemma_abs_units_zero();
    b.lemma_abs_units_zero();
    lemma_div_pos_is_pos(a.abs_units(), one);
    lemma_div_pos_is_pos(b.abs_units(), one);
    if a.abs_units() <= b.abs_units() {
        lemma_div_is_ordered(a.abs_units(), b.abs_units(), one);
    } else {
        lemma_div_is_ordered(b.abs_units(), a.abs_units(), one);
    }
}

/// The whole part lies between zero and the number and less than one away from
/// the number, as long as it fits; what lies beyond the `i32` range comes to the
/// nearer end of it.
pub proof fn law_whole_part_rounds_toward_zero(x: Binary64)
    requires
        !x.spec_is_nan(),
    ensures
        ({
            let one = pow2(1074) as int;
            let whole = x.spec_whole();
            &&& i32::MIN <= whole <= i32::MAX
            &&& x.units() >= 0 ==> whole >= 0 && whole * one <= x.units()
            &&& x.units() <= 0 ==> whole <= 0 && x.units() <= whole * one
            &&& x.units() >= 0 && whole < i32::MAX ==> x.units() < (whole + 1) * one
            &&& x.units() <= 0 && whole > i32::MIN ==> (whole - 1) * one < x.units()
        }),
{
    let one = pow2(1074) as int;
    let q = x.abs_whole();
    let abs = x.abs_units();
    lemma_pow2_pos(1074);
    x.lemma_abs_units_zero();
    lemma_fundamental_div_mod(abs, one);
    lemma_mod_bound(abs, one);
    lemma_div_pos_is_pos(abs, one);
    assert(one * q == q * one) by (nonlinear_arith);
    assert((q + 1) * one == q * one + one) by (nonlinear_arith);
    assert((-q) * one == -(q * one)) by (nonlinear_arith);
    assert((-q - 1) * one == -(q * one) - one) by (nonlinear_arith);
    if q > i32::MAX {
        lemma_mul_inequality(i32::MAX as int, q, one);
    }
    if q > 0x8000_0000 {
        lemma_mul_inequality(0x8000_0000, q, one);
        assert((-0x8000_0000int) * one == -(0x8000_0000int * one)) by (nonlinear_arith);
    }
    if abs == 0 {
        lemma_div_of0(one);
    }
}

/// What the patterns stand for. The sign bit turns a number around; the pattern
/// of one stands for one; a step of the exponent doubles a number; and as long as
/// the exponent is no more than one, a step of the pattern adds one unit.
pub proof fn law_patterns_stand_for_numbers(x: Binary64)
    requires
        x.bits < 0x7ff0_0000_0000_0000,
    ensures
        (Binary64 { bits: 0x3ff0_0000_0000_0000 }).units() == pow2(1074),
        (Binary64 { bits: 0 }).units() == 0,
        (Binary64 { bits: (x.bits + 0x8000_0000_0000_0000) as u64 }).units() == -x.units(),
        0x10_0000_0000_0000 <= x.bits < 0x7fe0_0000_0000_0000 ==> (Binary64 {
            bits: (x.bits + 0x10_0000_0000_0000) as u64,
        }).units() == 2 * x.units(),
        x.bits < 0x1f_ffff_ffff_ffff ==> (Binary64 { bits: (x.bits + 1) as u64 }).units()
            == x.units() + 1,
        x.spec_is_finite(),
        !x.spec_is_nan(),
{
    let one = Binary64 { bits: 0x3ff0_0000_0000_0000 };
    let minus = Binary64 { bits: (x.bits + 0x8000_0000_0000_0000) as u64 };
    lemma2_to64();
    lemma2_to64_rest();
    assert(one.exponent() == 1023 && one.fraction() == 0);
    lemma_pow2_adds(52, 1022);
    assert(minus.magnitude() == x.magnitude());
    if 0x10_0000_0000_0000 <= x.bits && x.bits < 0x7fe0_0000_0000_0000 {
        let twice = Binary64 { bits: (x.bits + 0x10_0000_0000_0000) as u64 };
        let e = x.exponent();
        assert(e >= 1);
        assert(twice.exponent() == e + 1);
        assert(twice.fraction() == x.fraction());
        lemma_pow2_adds(1, (e - 1) as nat);
        let s = EXPONENT_UNIT + x.fraction();
        let p = pow2((e - 1) as nat) as int;
        assert(s * (2 * p) == 2 * (s * p)) by (nonlinear_arith);
    }
    if x.bits < 0x1f_ffff_ffff_ffff {
        lemma_small_pattern(x);
        lemma_small_pattern(Binary64 { bits: (x.bits + 1) as u64 });
    }
}

/// Up to an exponent of one, the pattern is the number of units.
proof fn lemma_small_pattern(x: Binary64)
    requires
        x.bits <= 0x1f_ffff_ffff_ffff,
    ensures
        x.units() == x.bits,
{
    lemma2_to64();
    assert(x.magnitude() == x.bits);
    if x.bits < 0x10_0000_0000_0000 {
        assert(x.exponent() == 0 && x.fraction() == x.bits);
    } else {
        assert(x.exponent() == 1);
        assert(x.fraction() == x.bits - 0x10_0000_0000_0000);
        assert(pow2((x.exponent() - 1) as nat) == 1);
        assert(x.abs_units() == (EXPONENT_UNIT + x.fraction()) * 1);
    }
}

/// Finite is what lies below the pattern of the infinities, whatever the sign,
/// and no number is what lies above it; only the two zeros are zero.
pub proof fn law_kinds_of_patterns(x: Binary64)
    ensures
        ({
            let magnitude = if x.bits < 0x8000_0000_0000_0000 {
                x.bits as int
            } else {
                x.bits - 0x8000_0000_0000_0000
            };
            &&& x.spec_is_finite() <==> magnitude < 0x7ff0_0000_0000_0000
            &&& x.spec_is_nan() <==> magnitude > 0x7ff0_0000_0000_0000
            &&& x.units() == 0 <==> magnitude == 0
        }),
{
    x.lemma_abs_units_zero();
}

} // verus!
