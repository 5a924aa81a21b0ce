//! Real numbers as IEEE 754 binary64 values, carried as their 64 bits.
//!
//! Ordering and selection (`lt`, `le`, `min`, `max`, ...) are defined here on
//! the bit pattern and verified. Rounded arithmetic is delegated to the
//! software implementation in `const_soft_float`; each operation's result is
//! named by an uninterpreted function of the operand bits.

use const_soft_float::soft_f64::SoftF64;
use vstd::arithmetic::power2::{lemma2_to64, lemma2_to64_rest, lemma_pow2_unfold, pow2};
use vstd::prelude::*;

verus! {

/// The sign bit of a binary64 value.
pub const SIGN_BIT: u64 = 0x8000_0000_0000_0000;

/// The bits of positive infinity; every larger magnitude is a NaN.
pub const INFINITY_BITS: u64 = 0x7FF0_0000_0000_0000;

/// The bits of `0.0`.
pub const ZERO_BITS: u64 = 0;

/// The bits of `0.5`.
pub const HALF_BITS: u64 = 0x3FE0_0000_0000_0000;

/// The bits of `1.0`.
pub const ONE_BITS: u64 = 0x3FF0_0000_0000_0000;

/// The bits of `-1.0`.
pub const MINUS_ONE_BITS: u64 = 0xBFF0_0000_0000_0000;

/// The bits of `2.0`.
pub const TWO_BITS: u64 = 0x4000_0000_0000_0000;

/// The bits of `4.0`.
pub const FOUR_BITS: u64 = 0x4010_0000_0000_0000;

/// The bits of `180.0`.
pub const HALF_TURN_BITS: u64 = 0x4066_8000_0000_0000;

/// The bits of `360.0`.
pub const FULL_TURN_BITS: u64 = 0x4076_8000_0000_0000;

/// The bits of `4294967296.0`, two to the power of 32.
pub const TWO_POW_32_BITS: u64 = 0x41F0_0000_0000_0000;

/// The bits of the binary64 value nearest to pi.
pub const PI_BITS: u64 = 0x4009_21FB_5444_2D18;

/// The bits of the rounded sum of two binary64 values.
pub uninterp spec fn sum_bits(a: u64, b: u64) -> u64;

/// The bits of the rounded difference of two binary64 values.
pub uninterp spec fn difference_bits(a: u64, b: u64) -> u64;

/// The bits of the rounded product of two binary64 values.
pub uninterp spec fn product_bits(a: u64, b: u64) -> u64;

/// The bits of the rounded quotient of two binary64 values.
pub uninterp spec fn quotient_bits(a: u64, b: u64) -> u64;

/// The bits of the rounded square root of a binary64 value.
pub uninterp spec fn root_bits(a: u64) -> u64;

/// The bits of the sine of a binary64 value, as the software library computes it.
pub uninterp spec fn sine_bits(a: u64) -> u64;

/// The bits of the cosine of a binary64 value, as the software library computes it.
pub uninterp spec fn cosine_bits(a: u64) -> u64;

/// `SoftF64::add` on two bit patterns. The result depends on the operand
/// bits alone; nothing else is claimed of it.
#[verifier::external_body]
fn soft_add(a: u64, b: u64) -> (r: u64)
    ensures
        r == sum_bits(a, b),
{
    SoftF64::from_bits(a).add(SoftF64::from_bits(b)).to_bits()
}

/// `SoftF64::sub` on two bit patterns. The result depends on the operand
/// bits alone; nothing else is claimed of it.
#[verifier::external_body]
fn soft_sub(a: u64, b: u64) -> (r: u64)
    ensures
        r == difference_bits(a, b),
{
    SoftF64::from_bits(a).sub(SoftF64::from_bits(b)).to_bits()
}

/// `SoftF64::mul` on two bit patterns. The result depends on the operand
/// bits alone; nothing else is claimed of it.
#[verifier::external_body]
fn soft_mul(a: u64, b: u64) -> (r: u64)
    ensures
        r == product_bits(a, b),
{
    SoftF64::from_bits(a).mul(SoftF64::from_bits(b)).to_bits()
}

/// `SoftF64::div` on two bit patterns. Division by zero is defined (it gives
/// an infinity or a NaN). The result depends on the operand bits alone;
/// nothing else is claimed of it.
#[verifier::external_body]
fn soft_div(a: u64, b: u64) -> (r: u64)
    ensures
        r == quotient_bits(a, b),
{
    SoftF64::from_bits(a).div(SoftF64::from_bits(b)).to_bits()
}

/// `SoftF64::sqrt` on a bit pattern. The result depends on the operand bits
/// alone; nothing else is claimed of it.
#[verifier::external_body]
fn soft_sqrt(a: u64) -> (r: u64)
    ensures
        r == root_bits(a),
{
    SoftF64::from_bits(a).sqrt().to_bits()
}

/// `SoftF64::sin` on a bit pattern. The result depends on the operand bits
/// alone; nothing else is claimed of it.
#[verifier::external_body]
fn soft_sin(a: u64) -> (r: u64)
    ensures
        r == sine_bits(a),
{
    SoftF64::from_bits(a).sin().to_bits()
}

/// `SoftF64::cos` on a bit pattern. The result depends on the operand bits
/// alone; nothing else is claimed of it.
#[verifier::external_body]
fn soft_cos(a: u64) -> (r: u64)
    ensures
        r == cosine_bits(a),
{
    SoftF64::from_bits(a).cos().to_bits()
}

/// A binary64 number. Two scalars with different bits may still compare
/// equal (the two zeros), and one with equal bits may be unequal to itself
/// (a NaN): compare with `eq`, `lt` and `le`.
#[derive(Clone, Copy, Debug, Hash)]
pub struct Scalar {
    pub bits: u64,
}

impl Scalar {
    /// The bits without the sign.
    pub open spec fn magnitude(self) -> u64 {
        if self.bits >= SIGN_BIT {
            (self.bits - SIGN_BIT) as u64
        } else {
            self.bits
        }
    }

    /// Whether the value is not a number.
    pub open spec fn spec_is_nan(self) -> bool {
        self.magnitude() > INFINITY_BITS
    }

    /// Whether the value is neither a NaN nor an infinity.
    pub open spec fn spec_is_finite(self) -> bool {
        self.magnitude() < INFINITY_BITS
    }

    /// For a value that is not a NaN, an integer that orders as the value
    /// does. Both zeros have rank 0.
    pub open spec fn rank(self) -> int {
        if self.bits >= SIGN_BIT {
            -(self.magnitude() as int)
        } else {
            self.magnitude() as int
        }
    }

    /// `self < other` as IEEE 754 defines it: false if either is a NaN.
    pub open spec fn spec_lt(self, other: Scalar) -> bool {
        !self.spec_is_nan() && !other.spec_is_nan() && self.rank() < other.rank()
    }

    /// `self <= other` as IEEE 754 defines it: false if either is a NaN.
    pub open spec fn spec_le(self, other: Scalar) -> bool {
        !self.spec_is_nan() && !other.spec_is_nan() && self.rank() <= other.rank()
    }

    /// `self > other` as IEEE 754 defines it: false if either is a NaN.
    pub open spec fn spec_gt(self, other: Scalar) -> bool {
        other.spec_lt(self)
    }

    /// `self >= other` as IEEE 754 defines it: false if either is a NaN.
    pub open spec fn spec_ge(self, other: Scalar) -> bool {
        other.spec_le(self)
    }

    /// `self == other` as IEEE 754 defines it: false if either is a NaN,
    /// true of the two zeros.
    pub open spec fn spec_eq(self, other: Scalar) -> bool {
        !self.spec_is_nan() && !other.spec_is_nan() && self.rank() == other.rank()
    }

    /// The lesser of two values; where one is a NaN, the other; where they
    /// compare equal, `self`.
    pub open spec fn spec_min(self, other: Scalar) -> Scalar {
        if self.spec_is_nan() {
            other
        } else if other.spec_lt(self) {
            other
        } else {
            self
        }
    }

    /// The greater of two values; where one is a NaN, the other; where they
    /// compare equal, `self`.
    pub open spec fn spec_max(self, other: Scalar) -> Scalar {
        if self.spec_is_nan() {
            other
        } else if self.spec_lt(other) {
            other
        } else {
            self
        }
    }

    /// The value with its sign flipped.
    pub open spec fn spec_neg(self) -> Scalar {
        if self.bits >= SIGN_BIT {
            Scalar { bits: (self.bits - SIGN_BIT) as u64 }
        } else {
            Scalar { bits: (self.bits + SIGN_BIT) as u64 }
        }
    }

    /// The value with its sign cleared.
    pub open spec fn spec_abs(self) -> Scalar {
        Scalar { bits: self.magnitude() }
    }

    pub open spec fn spec_add(self, other: Scalar) -> Scalar {
        Scalar { bits: sum_bits(self.bits, other.bits) }
    }

    pub open spec fn spec_sub(self, other: Scalar) -> Scalar {
        Scalar { bits: difference_bits(self.bits, other.bits) }
    }

    pub open spec fn spec_mul(self, other: Scalar) -> Scalar {
        Scalar { bits: product_bits(self.bits, other.bits) }
    }

    pub open spec fn spec_div(self, other: Scalar) -> Scalar {
        Scalar { bits: quotient_bits(self.bits, other.bits) }
    }

    pub open spec fn spec_sqrt(self) -> Scalar {
        Scalar { bits: root_bits(self.bits) }
    }

    pub open spec fn spec_sin(self) -> Scalar {
        Scalar { bits: sine_bits(self.bits) }
    }

    pub open spec fn spec_cos(self) -> Scalar {
        Scalar { bits: cosine_bits(self.bits) }
    }

    /// The quotient of the sine by the cosine.
    pub open spec fn spec_tan(self) -> Scalar {
        self.spec_sin().spec_div(self.spec_cos())
    }

    /// The place of the highest bit that is set in `n`; 0 for 0.
    pub open spec fn spec_top_bit(n: nat) -> nat
        decreases n,
    {
        if n <= 1 {
            0
        } else {
            1 + Scalar::spec_top_bit(n / 2)
        }
    }

    /// The scalar whose value is the integer `n`. Every integer below two
    /// to the power of 53 is a binary64 value: with `e` the place of its
    /// highest bit, the exponent field holds `1023 + e`, and the fraction
    /// field holds the bits below the highest, moved up to the top of the
    /// field.
    pub open spec fn spec_from_u32(n: u32) -> Scalar {
        if n == 0 {
            Scalar::spec_zero()
        } else {
            let e = Scalar::spec_top_bit(n as nat);
            Scalar {
                bits: ((1023 + e) * pow2(52) + (n - pow2(e)) * pow2((52 - e) as nat)) as u64,
            }
        }
    }

    /// The scalar whose value is the integer `n`.
    pub open spec fn spec_from_i32(n: i32) -> Scalar {
        if n < 0 {
            Scalar::spec_from_u32((-n) as u32).spec_neg()
        } else {
            Scalar::spec_from_u32(n as u32)
        }
    }

    /// The scalar nearest to the integer `n`: the upper half of `n` times
    /// two to the power of 32, plus the lower half, rounded once.
    pub open spec fn spec_from_u64(n: u64) -> Scalar {
        Scalar::spec_from_u32((n / 0x1_0000_0000) as u32).spec_mul(
            Scalar { bits: TWO_POW_32_BITS },
        ).spec_add(Scalar::spec_from_u32((n % 0x1_0000_0000) as u32))
    }

    /// The exponent field of the value.
    pub open spec fn spec_exponent(self) -> int {
        self.magnitude() as int / 0x10_0000_0000_0000
    }

    /// The whole part of the magnitude of a value: zero below one; else
    /// the 53 leading bits of the value, moved to their place by the
    /// exponent, without what falls behind the point. For an infinity or a
    /// NaN it is a number of more than 64 bits.
    pub open spec fn spec_whole(self) -> nat {
        let e = self.spec_exponent();
        let m = 0x10_0000_0000_0000 + self.magnitude() as int % 0x10_0000_0000_0000;
        if e < 1023 {
            0
        } else if e <= 1075 {
            (m / pow2((1075 - e) as nat) as int) as nat
        } else {
            (m * pow2((e - 1075) as nat)) as nat
        }
    }

    /// The value as a 32-bit integer: cut off behind the point, and the
    /// nearest bound of the integers where it lies outside them; 0 for a
    /// NaN.
    pub open spec fn spec_to_i32(self) -> i32 {
        let whole = self.spec_whole();
        if self.spec_is_nan() {
            0
        } else if self.bits >= SIGN_BIT {
            if whole >= 0x8000_0000 {
                i32::MIN
            } else {
                (-(whole as int)) as i32
            }
        } else {
            if whole >= 0x8000_0000 {
                i32::MAX
            } else {
                whole as i32
            }
        }
    }

    /// The value as an unsigned 32-bit integer: cut off behind the point;
    /// 0 for a negative value and for a NaN, and the greatest integer for a
    /// value above it.
    pub open spec fn spec_to_u32(self) -> u32 {
        let whole = self.spec_whole();
        if self.spec_is_nan() || self.bits >= SIGN_BIT {
            0
        } else if whole >= 0x1_0000_0000 {
            u32::MAX
        } else {
            whole as u32
        }
    }

    pub open spec fn spec_zero() -> Scalar {
        Scalar { bits: 0 }
    }

    pub open spec fn spec_one() -> Scalar {
        Scalar { bits: ONE_BITS }
    }

    pub open spec fn spec_infinity() -> Scalar {
        Scalar { bits: INFINITY_BITS }
    }

    /// The scalar with the given bits.
    pub fn from_bits(bits: u64) -> (r: Scalar)
        ensures
            r.bits == bits,
    {
        Scalar { bits }
    }

    /// The bits of the scalar.
    pub fn to_bits(self) -> (r: u64)
        ensures
            r == self.bits,
    {
        self.bits
    }

    /// The scalar whose value is the integer `n`.
    pub fn from_u32(n: u32) -> (r: Scalar)
        ensures
            r == Scalar::spec_from_u32(n),
    {
        if n == 0 {
            return Scalar::zero();
        }
        proof {
            lemma2_to64();
            lemma2_to64_rest();
        }
        // The highest power of two that is not above n.
        let mut e: u64 = 0;
        let mut p: u64 = 1;
        while n as u64 / 2 >= p
            invariant
                1 <= p <= n,
                e <= 31,
                p == pow2(e as nat),
                Scalar::spec_top_bit(n as nat) == e + Scalar::spec_top_bit((n as nat) / (p as nat)),
            decreases n - p,
        {
            proof {
                lemma2_to64();
                lemma_pow2_unfold((e + 1) as nat);
                lemma_top_bit_halves(n as nat, p as nat);
            }
            p = p * 2;
            e = e + 1;
        }
        assert((n as nat) / (p as nat) == 1) by (nonlinear_arith)
            requires
                1 <= p <= n,
                (n as u64) / 2 < p,
        ;
        // The bits below the highest, moved up by 52 - e places.
        let mut m: u64 = n as u64 - p;
        let mut k: u64 = 0;
        let mut bound: u64 = p;
        while k < 52 - e
            invariant
                e <= 31,
                k <= 52 - e,
                m < bound,
                bound == pow2((e + k) as nat),
                m == (n - p) * pow2(k as nat),
                bound <= 0x10_0000_0000_0000,
            decreases 52 - e - k,
        {
            proof {
                lemma2_to64();
                lemma2_to64_rest();
                lemma_pow2_unfold((e + k + 1) as nat);
                lemma_pow2_unfold((k + 1) as nat);
                vstd::arithmetic::power2::lemma_pow2_strictly_increases((e + k) as nat, 52);
                assert((n - p) * (2 * pow2(k as nat)) == 2 * ((n - p) * pow2(k as nat)))
                    by (nonlinear_arith);
            }
            m = m * 2;
            bound = bound * 2;
            k = k + 1;
        }
        Scalar { bits: (1023 + e) * 0x10_0000_0000_0000 + m }
    }

    /// The scalar whose value is the integer `n`.
    pub fn from_i32(n: i32) -> (r: Scalar)
        ensures
            r == Scalar::spec_from_i32(n),
    {
        if n < 0 {
            let magnitude: i64 = 0 - (n as i64);
            Scalar::from_u32(magnitude as u32).neg()
        } else {
            Scalar::from_u32(n as u32)
        }
    }

    /// The scalar nearest to the integer `n`.
    pub fn from_u64(n: u64) -> (r: Scalar)
        ensures
            r == Scalar::spec_from_u64(n),
    {
        let high = Scalar::from_u32((n / 0x1_0000_0000) as u32);
        let low = Scalar::from_u32((n % 0x1_0000_0000) as u32);
        high.mul(Scalar { bits: TWO_POW_32_BITS }).add(low)
    }

    /// The whole part of the magnitude, if it is below two to the power of
    /// `bits`; `None` if it is not.
    fn whole_below(self, bits: u64) -> (r: Option<u64>)
        requires
            1 <= bits <= 32,
        ensures
            match r {
                Some(w) => w == self.spec_whole() && w < pow2(bits as nat),
                None => self.spec_whole() >= pow2(bits as nat),
            },
    {
        proof {
            lemma2_to64();
            lemma2_to64_rest();
        }
        let mag = self.exec_magnitude();
        let e = mag / 0x10_0000_0000_0000;
        let m = 0x10_0000_0000_0000 + mag % 0x10_0000_0000_0000;
        if e < 1023 {
            proof {
                vstd::arithmetic::power2::lemma_pow2_pos(bits as nat);
            }
            Some(0)
        } else if e >= 1023 + bits {
            proof {
                if e <= 1075 {
                    let k = (1075 - e) as nat;
                    let top = (52 - bits) as nat;
                    vstd::arithmetic::power2::lemma_pow2_pos(k);
                    if k < top {
                        vstd::arithmetic::power2::lemma_pow2_strictly_increases(k, top);
                    }
                    vstd::arithmetic::div_mod::lemma_div_is_ordered_by_denominator(
                        m as int,
                        pow2(k) as int,
                        pow2(top) as int,
                    );
                    vstd::arithmetic::power2::lemma_pow2_adds(top, bits as nat);
                    vstd::arithmetic::power2::lemma_pow2_pos(top);
                    assert((m as int) / (pow2(top) as int) >= pow2(bits as nat)) by (nonlinear_arith)
                        requires
                            m >= pow2(top) * pow2(bits as nat),
                            pow2(top) > 0,
                    ;
                } else {
                    let k = (e - 1075) as nat;
                    vstd::arithmetic::power2::lemma_pow2_pos(k);
                    vstd::arithmetic::power2::lemma_pow2_strictly_increases(bits as nat, 52);
                    assert(m * pow2(k) >= m) by (nonlinear_arith)
                        requires
                            pow2(k) >= 1,
                            m >= 0,
                    ;
                }
            }
            None
        } else {
            let shift = 1075 - e;
            proof {
                let low = (52 - bits + 1) as nat;
                vstd::bits::lemma_u64_shr_is_div(m, shift);
                vstd::arithmetic::power2::lemma_pow2_pos(low);
                if low < shift {
                    vstd::arithmetic::power2::lemma_pow2_strictly_increases(low, shift as nat);
                }
                vstd::arithmetic::div_mod::lemma_div_is_ordered_by_denominator(
                    m as int,
                    pow2(low) as int,
                    pow2(shift as nat) as int,
                );
                vstd::arithmetic::power2::lemma_pow2_adds(low, bits as nat);
                vstd::arithmetic::power2::lemma_pow2_unfold(53);
                assert((m as int) / (pow2(low) as int) < pow2(bits as nat)) by (nonlinear_arith)
                    requires
                        0 <= m < 2 * pow2(52),
                        pow2(low) * pow2(bits as nat) == 2 * pow2(52),
                        pow2(low) > 0,
                ;
            }
            Some(m >> shift)
        }
    }

    /// The value as a 32-bit integer, cut off behind the point.
    pub fn to_i32(self) -> (r: i32)
        ensures
            r == self.spec_to_i32(),
    {
        proof {
            lemma2_to64();
        }
        if self.is_nan() {
            return 0;
        }
        match self.whole_below(31) {
            Some(w) => if self.bits >= SIGN_BIT {
                0 - (w as i32)
            } else {
                w as i32
            },
            None => if self.bits >= SIGN_BIT {
                i32::MIN
            } else {
                i32::MAX
            },
        }
    }

    /// The value as an unsigned 32-bit integer, cut off behind the point.
    pub fn to_u32(self) -> (r: u32)
        ensures
            r == self.spec_to_u32(),
    {
        proof {
            lemma2_to64();
        }
        if self.is_nan() || self.bits >= SIGN_BIT {
            return 0;
        }
        match self.whole_below(32) {
            Some(w) => w as u32,
            None => u32::MAX,
        }
    }

    /// Positive zero.
    pub fn zero() -> (r: Scalar)
        ensures
            r == Scalar::spec_zero(),
    {
        Scalar { bits: 0 }
    }

    /// The number one.
    pub fn one() -> (r: Scalar)
        ensures
            r == Scalar::spec_one(),
    {
        Scalar { bits: ONE_BITS }
    }

    /// Positive infinity.
    pub fn infinity() -> (r: Scalar)
        ensures
            r == Scalar::spec_infinity(),
    {
        Scalar { bits: INFINITY_BITS }
    }

    fn exec_magnitude(self) -> (m: u64)
        ensures
            m == self.magnitude(),
    {
        if self.bits >= SIGN_BIT {
            self.bits - SIGN_BIT
        } else {
            self.bits
        }
    }

    fn exec_rank(self) -> (k: i128)
        ensures
            k == self.rank(),
    {
        let m: u64 = self.exec_magnitude();
        if self.bits >= SIGN_BIT {
            0 - (m as i128)
        } else {
            m as i128
        }
    }

    pub fn is_nan(self) -> (b: bool)
        ensures
            b == self.spec_is_nan(),
    {
        self.exec_magnitude() > INFINITY_BITS
    }

    pub fn is_finite(self) -> (b: bool)
        ensures
            b == self.spec_is_finite(),
    {
        self.exec_magnitude() < INFINITY_BITS
    }

    pub fn lt(self, other: Scalar) -> (b: bool)
        ensures
            b == self.spec_lt(other),
    {
        !self.is_nan() && !other.is_nan() && self.exec_rank() < other.exec_rank()
    }

    pub fn le(self, other: Scalar) -> (b: bool)
        ensures
            b == self.spec_le(other),
    {
        !self.is_nan() && !other.is_nan() && self.exec_rank() <= other.exec_rank()
    }

    pub fn gt(self, other: Scalar) -> (b: bool)
        ensures
            b == self.spec_gt(other),
    {
        other.lt(self)
    }

    pub fn ge(self, other: Scalar) -> (b: bool)
        ensures
            b == self.spec_ge(other),
    {
        other.le(self)
    }

    pub fn eq(self, other: Scalar) -> (b: bool)
        ensures
            b == self.spec_eq(other),
    {
        !self.is_nan() && !other.is_nan() && self.exec_rank() == other.exec_rank()
    }

    pub fn min(self, other: Scalar) -> (r: Scalar)
        ensures
            r == self.spec_min(other),
    {
        if self.is_nan() {
            other
        } else if other.lt(self) {
            other
        } else {
            self
        }
    }

    pub fn max(self, other: Scalar) -> (r: Scalar)
        ensures
            r == self.spec_max(other),
    {
        if self.is_nan() {
            other
        } else if self.lt(other) {
            other
        } else {
            self
        }
    }

    pub fn neg(self) -> (r: Scalar)
        ensures
            r == self.spec_neg(),
    {
        if self.bits >= SIGN_BIT {
            Scalar { bits: self.bits - SIGN_BIT }
        } else {
            Scalar { bits: self.bits + SIGN_BIT }
        }
    }

    pub fn abs(self) -> (r: Scalar)
        ensures
            r == self.spec_abs(),
    {
        Scalar { bits: self.exec_magnitude() }
    }

    pub fn add(self, other: Scalar) -> (r: Scalar)
        ensures
            r == self.spec_add(other),
    {
        Scalar { bits: soft_add(self.bits, other.bits) }
    }

    pub fn sub(self, other: Scalar) -> (r: Scalar)
        ensures
            r == self.spec_sub(other),
    {
        Scalar { bits: soft_sub(self.bits, other.bits) }
    }

    pub fn mul(self, other: Scalar) -> (r: Scalar)
        ensures
            r == self.spec_mul(other),
    {
        Scalar { bits: soft_mul(self.bits, other.bits) }
    }

    pub fn div(self, other: Scalar) -> (r: Scalar)
        ensures
            r == self.spec_div(other),
    {
        Scalar { bits: soft_div(self.bits, other.bits) }
    }

    pub fn sqrt(self) -> (r: Scalar)
        ensures
            r == self.spec_sqrt(),
    {
        Scalar { bits: soft_sqrt(self.bits) }
    }

    pub fn sin(self) -> (r: Scalar)
        ensures
            r == self.spec_sin(),
    {
        Scalar { bits: soft_sin(self.bits) }
    }

    pub fn cos(self) -> (r: Scalar)
        ensures
            r == self.spec_cos(),
    {
        Scalar { bits: soft_cos(self.bits) }
    }

    pub fn tan(self) -> (r: Scalar)
        ensures
            r == self.spec_tan(),
    {
        self.sin().div(self.cos())
    }
}

impl Default for Scalar {
    fn default() -> (r: Scalar)
        ensures
            r == Scalar::spec_zero(),
    {
        Scalar { bits: 0 }
    }
}

/// The highest bit of `n` lies as far above that of `n / p` as `p` is a
/// power of two: one step of the halving that finds it.
proof fn lemma_top_bit_halves(n: nat, p: nat)
    requires
        p >= 1,
        n / 2 >= p,
    ensures
        Scalar::spec_top_bit(n / p) == 1 + Scalar::spec_top_bit(n / (2 * p)),
{
    assert(n / p >= 2) by (nonlinear_arith)
        requires
            p >= 1,
            n / 2 >= p,
    ;
    assert((n / p) / 2 == n / (2 * p)) by (nonlinear_arith)
        requires
            p >= 1,
    ;
}

/// Values that are not NaNs are totally ordered by `le`.
pub proof fn lemma_order_total(a: Scalar, b: Scalar)
    requires
        !a.spec_is_nan(),
        !b.spec_is_nan(),
    ensures
        a.spec_le(b) || b.spec_le(a),
        a.spec_lt(b) <==> !b.spec_le(a),
        a.spec_le(b) && b.spec_le(a) <==> a.spec_eq(b),
{
}

/// `le` and `lt` are transitive.
pub proof fn lemma_order_transitive(a: Scalar, b: Scalar, c: Scalar)
    ensures
        a.spec_le(b) && b.spec_le(c) ==> a.spec_le(c),
        a.spec_lt(b) && b.spec_le(c) ==> a.spec_lt(c),
        a.spec_le(b) && b.spec_lt(c) ==> a.spec_lt(c),
{
}

/// No comparison holds of a NaN.
pub proof fn lemma_nan_unordered(a: Scalar, b: Scalar)
    requires
        a.spec_is_nan() || b.spec_is_nan(),
    ensures
        !a.spec_lt(b),
        !a.spec_le(b),
        !a.spec_gt(b),
        !a.spec_ge(b),
        !a.spec_eq(b),
{
}

} // verus!
