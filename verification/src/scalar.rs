//! Double-precision numbers held by their IEEE 754 bit pattern, and the order
//! among them.

use vstd::prelude::*;
use vstd::arithmetic::div_mod::{
    lemma_basic_div,
    lemma_div_by_multiple,
    lemma_div_is_ordered,
    lemma_div_multiples_vanish_quotient,
};
use vstd::arithmetic::mul::lemma_mul_is_associative;
use vstd::arithmetic::power2::{
    lemma2_to64,
    lemma2_to64_rest,
    lemma_pow2_adds,
    lemma_pow2_pos,
    lemma_pow2_strictly_increases,
    lemma_pow2_unfold,
    pow2,
};
use vstd::bits::lemma_u64_shr_is_div;

verus! {

/// The sign bit of a double.
pub const SIGN_BIT: u64 = 0x8000_0000_0000_0000;

/// The bit pattern of positive infinity: every exponent bit set, no fraction bit set.
pub const INFINITY_BITS: u64 = 0x7ff0_0000_0000_0000;

/// The bit pattern of 1.0.
pub const ONE_BITS: u64 = 0x3ff0_0000_0000_0000;

/// 2^52: the lowest exponent bit, and the weight of the leading 1 that a
/// normal number has before its 52 fraction bits.
pub const HIDDEN_BIT: u64 = 0x0010_0000_0000_0000;

/// A double, held by its bit pattern.
///
/// `==` on two scalars compares the bit patterns: it tells +0.0 from -0.0 and
/// finds a NaN equal to itself. The numeric order is `lt` and `le`.
#[derive(Clone, Copy, Debug, PartialEq, Eq, Structural)]
pub struct Scalar {
    pub bits: u64,
}

impl Scalar {
    /// Whether the sign bit is set.
    pub open spec fn is_negative(self) -> bool {
        self.bits >= SIGN_BIT
    }

    /// The bit pattern without its sign bit.
    pub open spec fn magnitude(self) -> int {
        if self.bits >= SIGN_BIT {
            self.bits - SIGN_BIT
        } else {
            self.bits as int
        }
    }

    /// Not a number: the exponent bits are all set and some fraction bit is set.
    pub open spec fn is_nan_spec(self) -> bool {
        self.magnitude() > INFINITY_BITS
    }

    /// Neither NaN nor infinite.
    pub open spec fn is_finite(self) -> bool {
        self.magnitude() < INFINITY_BITS
    }

    /// The 11 exponent bits, as a number: 0 for zero and the subnormal
    /// numbers, 1023 for the numbers from 1 up to 2, 2047 for infinity and NaN.
    pub open spec fn exponent(self) -> int {
        self.magnitude() / (HIDDEN_BIT as int)
    }

    /// The 52 fraction bits, as a number.
    pub open spec fn fraction(self) -> int {
        self.magnitude() % (HIDDEN_BIT as int)
    }

    /// The absolute value of the number that a finite bit pattern stands for,
    /// counted in units of 2^-1074, the smallest positive double: the
    /// fraction bits alone where the exponent bits are zero, and else the
    /// fraction bits behind a leading 1, doubled once for each step of the
    /// exponent above 1.
    pub open spec fn scaled_magnitude(self) -> int {
        if self.exponent() == 0 {
            self.fraction()
        } else {
            (HIDDEN_BIT + self.fraction()) * pow2((self.exponent() - 1) as nat)
        }
    }

    /// The number that a finite bit pattern stands for, in units of 2^-1074.
    pub open spec fn scaled_value(self) -> int {
        if self.is_negative() {
            -self.scaled_magnitude()
        } else {
            self.scaled_magnitude()
        }
    }

    /// Where the number stands on the number line: for numbers that are not NaN,
    /// a smaller rank is a smaller number, and both zeros have rank 0.
    pub open spec fn rank(self) -> int {
        if self.is_negative() {
            -self.magnitude()
        } else {
            self.magnitude()
        }
    }

    /// `self < other` as doubles compare: false as soon as one side is NaN.
    pub open spec fn lt_spec(self, other: Scalar) -> bool {
        !self.is_nan_spec() && !other.is_nan_spec() && self.rank() < other.rank()
    }

    /// `self <= other` as doubles compare: false as soon as one side is NaN.
    pub open spec fn le_spec(self, other: Scalar) -> bool {
        !self.is_nan_spec() && !other.is_nan_spec() && self.rank() <= other.rank()
    }

    /// The whole part of the absolute value after it was doubled `doublings`
    /// times: for a finite number x, the floor of |x| * 2^doublings.
    pub open spec fn whole_part(self, doublings: nat) -> int {
        (self.scaled_magnitude() * pow2(doublings)) / (pow2(1074) as int)
    }

    /// The number as an unsigned 32-bit integer, as a cast gives it: the whole
    /// part, kept within the integer's range, and 0 for NaN.
    pub open spec fn to_u32_spec(self) -> u32 {
        if self.is_nan_spec() || self.is_negative() {
            0
        } else if !self.is_finite() || self.whole_part(0) > u32::MAX {
            u32::MAX
        } else {
            self.whole_part(0) as u32
        }
    }

    /// The number kept within `min` and `max`; NaN stays NaN.
    pub open spec fn clamp_spec(self, min: Scalar, max: Scalar) -> Scalar {
        if self.lt_spec(min) {
            min
        } else if max.lt_spec(self) {
            max
        } else {
            self
        }
    }

    /// The number with the opposite sign bit.
    pub open spec fn neg_spec(self) -> Scalar {
        if self.bits >= SIGN_BIT {
            Scalar { bits: (self.bits - SIGN_BIT) as u64 }
        } else {
            Scalar { bits: (self.bits + SIGN_BIT) as u64 }
        }
    }

    /// The number with the sign bit cleared.
    pub open spec fn abs_spec(self) -> Scalar {
        if self.bits >= SIGN_BIT {
            Scalar { bits: (self.bits - SIGN_BIT) as u64 }
        } else {
            self
        }
    }

    /// The scalar with the given bit pattern.
    pub fn from_bits(bits: u64) -> (s: Scalar)
        ensures
            s.bits == bits,
    {
        Scalar { bits }
    }

    /// The bit pattern.
    pub fn to_bits(self) -> (bits: u64)
        ensures
            bits == self.bits,
    {
        self.bits
    }

    /// 0.0, with the sign bit clear.
    pub fn zero() -> (s: Scalar)
        ensures
            s.bits == 0,
    {
        Scalar { bits: 0 }
    }

    /// 1.0.
    pub fn one() -> (s: Scalar)
        ensures
            s.bits == ONE_BITS,
    {
        Scalar { bits: ONE_BITS }
    }

    fn magnitude_bits(self) -> (m: u64)
        ensures
            m == self.magnitude(),
            m < SIGN_BIT,
    {
        if self.bits >= SIGN_BIT {
            self.bits - SIGN_BIT
        } else {
            self.bits
        }
    }

    /// Whether the number is NaN.
    pub fn is_nan(self) -> (r: bool)
        ensures
            r == self.is_nan_spec(),
    {
        self.magnitude_bits() > INFINITY_BITS
    }

    /// `self < other`, as the doubles compare.
    pub fn lt(self, other: Scalar) -> (r: bool)
        ensures
            r == self.lt_spec(other),
    {
        if self.is_nan() || other.is_nan() {
            return false;
        }
        let a: u64 = self.magnitude_bits();
        let b: u64 = other.magnitude_bits();
        if self.bits >= SIGN_BIT {
            if other.bits >= SIGN_BIT {
                b < a
            } else {
                a > 0 || b > 0
            }
        } else {
            if other.bits >= SIGN_BIT {
                false
            } else {
                a < b
            }
        }
    }

    /// `self <= other`, as the doubles compare.
    pub fn le(self, other: Scalar) -> (r: bool)
        ensures
            r == self.le_spec(other),
    {
        if self.is_nan() || other.is_nan() {
            return false;
        }
        let a: u64 = self.magnitude_bits();
        let b: u64 = other.magnitude_bits();
        if self.bits >= SIGN_BIT {
            if other.bits >= SIGN_BIT {
                b <= a
            } else {
                true
            }
        } else {
            if other.bits >= SIGN_BIT {
                a == 0 && b == 0
            } else {
                a <= b
            }
        }
    }

    /// The number kept within `min` and `max`. NaN stays NaN.
    pub fn clamp(self, min: Scalar, max: Scalar) -> (r: Scalar)
        requires
            min.le_spec(max),
        ensures
            r == self.clamp_spec(min, max),
    {
        if self.lt(min) {
            min
        } else if max.lt(self) {
            max
        } else {
            self
        }
    }

    /// The whole part of the absolute value after `doublings` doublings, for a
    /// number whose exponent leaves that below 2^53.
    pub(crate) fn whole(self, doublings: u64) -> (w: u64)
        requires
            self.is_finite(),
            doublings < 1023,
            self.exponent() + doublings <= 1075,
        ensures
            w == self.whole_part(doublings as nat),
            w < pow2(53),
    {
        let magnitude: u64 = self.magnitude_bits();
        let exponent: u64 = magnitude / HIDDEN_BIT;
        let fraction: u64 = magnitude % HIDDEN_BIT;
        proof {
            lemma_whole_part(self, doublings as nat);
            lemma2_to64_rest();
        }
        if exponent + doublings < 1023 {
            return 0;
        }
        let shift: u64 = 1075 - exponent - doublings;
        let mantissa: u64 = HIDDEN_BIT + fraction;
        proof {
            lemma_u64_shr_is_div(mantissa, shift);
            assert(mantissa >> shift <= mantissa) by (bit_vector);
            assert(mantissa as nat / pow2(shift as nat) == (mantissa as int) / (pow2(
                shift as nat,
            ) as int));
        }
        mantissa >> shift
    }

    /// The number as an unsigned 32-bit integer, as a cast gives it: cut off
    /// behind the point, the greatest integer for what lies above the range,
    /// 0 for what lies below it and for NaN.
    pub fn to_u32(self) -> (r: u32)
        ensures
            r == self.to_u32_spec(),
    {
        if self.is_nan() || self.bits >= SIGN_BIT {
            return 0;
        }
        if self.bits >= INFINITY_BITS {
            return u32::MAX;
        }
        let exponent: u64 = self.bits / HIDDEN_BIT;
        proof {
            lemma_whole_part(self, 0);
            lemma2_to64();
            if exponent > 1055 {
                lemma_pow2_strictly_increases(32, (exponent - 1023) as nat);
            }
        }
        if exponent >= 1055 {
            return u32::MAX;
        }
        let whole: u64 = self.whole(0);
        proof {
            if 1023 <= exponent < 1054 {
                lemma_pow2_strictly_increases((exponent - 1022) as nat, 32);
            }
        }
        whole as u32
    }

    /// The number with the opposite sign: what unary minus gives, NaN included.
    pub fn neg(self) -> (r: Scalar)
        ensures
            r == self.neg_spec(),
            r.scaled_value() == -self.scaled_value(),
            r.is_nan_spec() == self.is_nan_spec(),
    {
        if self.bits >= SIGN_BIT {
            Scalar { bits: self.bits - SIGN_BIT }
        } else {
            Scalar { bits: self.bits + SIGN_BIT }
        }
    }

    /// The absolute value.
    pub fn abs(self) -> (r: Scalar)
        ensures
            r == self.abs_spec(),
            r.scaled_value() == self.scaled_magnitude(),
            r.is_nan_spec() == self.is_nan_spec(),
    {
        if self.bits >= SIGN_BIT {
            Scalar { bits: self.bits - SIGN_BIT }
        } else {
            self
        }
    }
}

/// A greater bit pattern, the sign bit apart, stands for a greater absolute value.
proof fn lemma_magnitude_grows(a: Scalar, b: Scalar)
    requires
        a.magnitude() < b.magnitude(),
    ensures
        0 <= a.scaled_magnitude() < b.scaled_magnitude(),
{
    let h = HIDDEN_BIT as int;
    let ea = a.magnitude() / h;
    let fa = a.magnitude() % h;
    let eb = b.magnitude() / h;
    let fb = b.magnitude() % h;
    assert(ea < eb || (ea == eb && fa < fb));
    if eb >= 1 {
        let pb = pow2((eb - 1) as nat) as int;
        lemma_pow2_pos((eb - 1) as nat);
        if ea == eb {
            assert(0 <= (h + fa) * pb < (h + fb) * pb) by (nonlinear_arith)
                requires
                    0 <= fa < fb,
                    h > 0,
                    pb > 0,
            ;
        } else if ea == 0 {
            assert(h <= (h + fb) * pb) by (nonlinear_arith)
                requires
                    0 <= fb,
                    h > 0,
                    pb >= 1,
            ;
        } else {
            let pa = pow2((ea - 1) as nat) as int;
            lemma_pow2_pos((ea - 1) as nat);
            lemma_pow2_unfold(ea as nat);
            if ea < eb - 1 {
                lemma_pow2_strictly_increases(ea as nat, (eb - 1) as nat);
            }
            assert(0 <= (h + fa) * pa < (h + fb) * pb) by (nonlinear_arith)
                requires
                    0 <= fa < h,
                    0 <= fb,
                    pa > 0,
                    2 * pa <= pb,
            ;
        }
    }
}

/// The whole part of a finite number, read off its bit pattern: nothing below
/// the exponent of 1, and above it the leading 1 and the fraction bits, cut
/// off where the exponent puts the point.
pub proof fn lemma_whole_part(a: Scalar, doublings: nat)
    requires
        a.is_finite(),
    ensures
        a.exponent() + doublings < 1023 ==> a.whole_part(doublings) == 0,
        1023 <= a.exponent() + doublings <= 1075 && doublings < 1023 ==> a.whole_part(doublings)
            == (HIDDEN_BIT + a.fraction()) / (pow2(
            (1075 - a.exponent() - doublings) as nat,
        ) as int),
        1023 <= a.exponent() + doublings && doublings < 1023 ==> pow2(
            (a.exponent() + doublings - 1023) as nat,
        ) <= a.whole_part(doublings) < pow2((a.exponent() + doublings - 1022) as nat),
{
    let h = HIDDEN_BIT as int;
    let e = a.magnitude() / h;
    let f = a.magnitude() % h;
    let p = pow2(doublings) as int;
    let t = pow2(1074) as int;
    lemma2_to64_rest();
    assert(h == pow2(52));
    lemma_pow2_pos(doublings);
    lemma_pow2_pos(1074);
    if e == 0 {
        if doublings < 1023 {
            lemma_pow2_adds(52, doublings);
            if 52 + doublings < 1074 {
                lemma_pow2_strictly_increases(52 + doublings, 1074);
            }
            assert(0 <= f * p < h * p) by (nonlinear_arith)
                requires
                    0 <= f < h,
                    p > 0,
            ;
            lemma_basic_div(f * p, t);
        }
    } else if doublings < 1023 {
        let m = h + f;
        let low = (e - 1 + doublings) as nat;
        let q = pow2(low) as int;
        lemma_pow2_pos(low);
        lemma_pow2_adds((e - 1) as nat, doublings);
        lemma_mul_is_associative(m, pow2((e - 1) as nat) as int, p);
        assert(a.scaled_magnitude() * p == m * q);
        // h * q <= m * q < 2 * h * q, and h * q is 2^(e + doublings + 51).
        assert(h * q <= m * q < 2 * (h * q)) by (nonlinear_arith)
            requires
                h <= m < 2 * h,
                q > 0,
        ;
        lemma_pow2_adds(52, low);
        if e + doublings < 1023 {
            lemma_pow2_unfold(52 + low + 1);
            if 52 + low + 1 < 1074 {
                lemma_pow2_strictly_increases(52 + low + 1, 1074);
            }
            lemma_basic_div(m * q, t);
        } else {
            let up = (e + doublings - 1023) as nat;
            let u = pow2(up) as int;
            lemma_pow2_pos(up);
            lemma_pow2_adds(up, 1074);
            assert(h * q == u * t);
            lemma_pow2_unfold(up + 1);
            assert(2 * (h * q) == pow2(up + 1) * t) by (nonlinear_arith)
                requires
                    h * q == u * t,
                    pow2(up + 1) == 2 * u,
            ;
            lemma_div_is_ordered(u * t, m * q, t);
            lemma_div_by_multiple(u, t);
            lemma_div_is_ordered(m * q, pow2(up + 1) * t - 1, t);
            assert((pow2(up + 1) * t - 1) / t < pow2(up + 1)) by (nonlinear_arith)
                requires
                    t > 0,
                    pow2(up + 1) > 0,
            ;
            if e + doublings <= 1075 {
                let k = (1075 - e - doublings) as nat;
                lemma_pow2_pos(k);
                lemma_pow2_adds(low, k);
                lemma_div_multiples_vanish_quotient(q, m, pow2(k) as int);
                assert(m * q == q * m) by (nonlinear_arith);
            }
        }
    }
}

/// The order of the bit patterns is the order of the numbers: of two finite
/// doubles, one is below the other exactly when the number that it stands for
/// is the smaller one.
pub proof fn lemma_order_is_numeric(a: Scalar, b: Scalar)
    requires
        a.is_finite(),
        b.is_finite(),
    ensures
        a.lt_spec(b) <==> a.scaled_value() < b.scaled_value(),
        a.le_spec(b) <==> a.scaled_value() <= b.scaled_value(),
{
    if a.magnitude() < b.magnitude() {
        lemma_magnitude_grows(a, b);
    } else if b.magnitude() < a.magnitude() {
        lemma_magnitude_grows(b, a);
    }
    if a.magnitude() > 0 {
        lemma_magnitude_grows(Scalar { bits: 0 }, a);
    }
    if b.magnitude() > 0 {
        lemma_magnitude_grows(Scalar { bits: 0 }, b);
    }
}

} // verus!
