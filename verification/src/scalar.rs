//! Binary64 numbers held by their bit patterns.
//!
//! Every quantity of the renderer (coordinates, ray parameters, colour
//! channels) is an IEEE-754 double. This module gives such a number a
//! mathematical meaning and decides, on the bits alone, how two of them
//! compare. Arithmetic that rounds is not done here: the caller computes a
//! sum or a square root and hands the resulting number in.
//!
//! The meaning of a number is its signed count of *units*, one unit being
//! the smallest positive double, two to the power -1074. Every finite double
//! is a whole number of units, so comparisons and truncations can be stated
//! over `int` without loss.

use vstd::prelude::*;
use vstd::arithmetic::div_mod::*;
use vstd::arithmetic::mul::*;
use vstd::arithmetic::power2::*;
use vstd::bits::*;

verus! {

/// The bit that holds the sign.
pub const SIGN_BIT: u64 = 0x8000_0000_0000_0000;

/// The pattern of positive infinity: every exponent bit set, no fraction bit.
pub const INFINITY_BITS: u64 = 0x7ff0_0000_0000_0000;

/// Two to the power 52: the weight of the implicit leading bit of a normal
/// number, and the number of patterns that share one exponent.
pub const HIDDEN_BIT: u64 = 0x0010_0000_0000_0000;

/// A binary64 number, identified by its 64 bits.
///
/// `==` on this type is identity of patterns; it tells the two zeros apart
/// and equates a NaN with itself. Numeric comparison is [`Scalar::lt`] and
/// its siblings.
#[derive(Clone, Copy, Debug, PartialEq, Eq, Structural)]
pub struct Scalar {
    pub bits: u64,
}

impl Scalar {
    /// The sign bit is set (true of -0.0 and of some NaNs as well).
    pub open spec fn negative(self) -> bool {
        self.bits >= SIGN_BIT
    }

    /// The pattern without its sign bit.
    pub open spec fn magnitude(self) -> int {
        if self.bits >= SIGN_BIT {
            self.bits - SIGN_BIT
        } else {
            self.bits as int
        }
    }

    /// Not a number: every exponent bit is set, and some fraction bit.
    pub open spec fn nan(self) -> bool {
        self.magnitude() > INFINITY_BITS
    }

    /// The eleven exponent bits, read as a number.
    pub open spec fn exponent_field(self) -> int {
        self.magnitude() / (HIDDEN_BIT as int)
    }

    /// The fifty-two fraction bits, read as a number.
    pub open spec fn fraction_field(self) -> int {
        self.magnitude() % (HIDDEN_BIT as int)
    }

    /// The integer significand: the fraction, with the implicit leading bit
    /// for all but subnormal numbers and zero.
    pub open spec fn significand(self) -> int {
        if self.exponent_field() == 0 {
            self.fraction_field()
        } else {
            self.fraction_field() + HIDDEN_BIT
        }
    }

    /// The power of two by which the significand is scaled to give units.
    pub open spec fn doublings(self) -> nat {
        if self.exponent_field() <= 1 {
            0
        } else {
            (self.exponent_field() - 1) as nat
        }
    }

    /// The absolute value, in units of two to the power -1074.
    ///
    /// The pattern of infinity gets two to the power 2098 by the same
    /// formula, which lies above every finite number.
    pub open spec fn size(self) -> int {
        self.significand() * pow2(self.doublings())
    }

    /// The value, in units of two to the power -1074. Meaningless for NaN.
    pub open spec fn units(self) -> int {
        if self.negative() {
            -self.size()
        } else {
            self.size()
        }
    }

    /// The whole part of the absolute value times two to the power `k`.
    pub open spec fn floor_scaled(self, k: nat) -> int {
        (self.size() * pow2(k)) / (pow2(1074) as int)
    }

    /// The integer that a conversion to `u32` gives: zero for NaN and for
    /// every number with a sign bit, the largest `u32` for what lies above
    /// it, else the whole part.
    pub open spec fn to_u32_spec(self) -> int {
        if self.nan() || self.negative() {
            0
        } else if self.floor_scaled(0) > u32::MAX {
            u32::MAX as int
        } else {
            self.floor_scaled(0)
        }
    }

    /// Numerically less: false as soon as either side is NaN.
    pub open spec fn lt_spec(self, rhs: Scalar) -> bool {
        !self.nan() && !rhs.nan() && self.units() < rhs.units()
    }

    /// Numerically less or equal: false as soon as either side is NaN.
    pub open spec fn le_spec(self, rhs: Scalar) -> bool {
        !self.nan() && !rhs.nan() && self.units() <= rhs.units()
    }

    pub open spec fn gt_spec(self, rhs: Scalar) -> bool {
        rhs.lt_spec(self)
    }

    pub open spec fn ge_spec(self, rhs: Scalar) -> bool {
        rhs.le_spec(self)
    }

    /// The same number with the opposite sign bit.
    pub open spec fn neg_spec(self) -> Scalar {
        if self.bits >= SIGN_BIT {
            Scalar { bits: (self.bits - SIGN_BIT) as u64 }
        } else {
            Scalar { bits: (self.bits + SIGN_BIT) as u64 }
        }
    }

    /// The same number with a clear sign bit.
    pub open spec fn abs_spec(self) -> Scalar {
        Scalar { bits: self.magnitude() as u64 }
    }

    /// Patterns grow with the sizes they stand for: on magnitudes, the
    /// order of the bit patterns is the order of the absolute values.
    pub proof fn lemma_size_grows(self, rhs: Scalar)
        requires
            self.magnitude() < rhs.magnitude(),
        ensures
            0 <= self.size() < rhs.size(),
    {
        let h: int = HIDDEN_BIT as int;
        let ea = self.exponent_field();
        let eb = rhs.exponent_field();
        let fa = self.fraction_field();
        let fb = rhs.fraction_field();
        let pa = pow2(self.doublings()) as int;
        let pb = pow2(rhs.doublings()) as int;
        lemma_pow2_pos(self.doublings());
        lemma_pow2_pos(rhs.doublings());
        assert(self.magnitude() == ea * h + fa && rhs.magnitude() == eb * h + fb);
        assert(0 <= self.significand() * pa) by (nonlinear_arith)
            requires
                0 <= self.significand(),
                0 < pa,
        ;
        if ea == eb {
            assert(self.significand() * pa < rhs.significand() * pa) by (nonlinear_arith)
                requires
                    self.significand() < rhs.significand(),
                    0 < pa,
            ;
        } else if ea == 0 {
            // a subnormal number or zero lies below every normal one
            assert(pa == 1) by {
                lemma2_to64();
            }
            assert(self.significand() * pa == fa) by (nonlinear_arith)
                requires
                    self.significand() == fa,
                    pa == 1,
            ;
            assert(rhs.significand() * pb >= h) by (nonlinear_arith)
                requires
                    rhs.significand() >= h,
                    pb >= 1,
                    h >= 0,
            ;
        } else {
            // one more doubling outweighs any difference of significands
            lemma_pow2_unfold((self.doublings() + 1) as nat);
            if self.doublings() + 1 < rhs.doublings() {
                lemma_pow2_strictly_increases((self.doublings() + 1) as nat, rhs.doublings());
            }
            assert(2 * pa <= pb);
            assert(self.significand() * pa < rhs.significand() * pb) by (nonlinear_arith)
                requires
                    0 <= self.significand() < 2 * h,
                    h <= rhs.significand(),
                    0 < pa,
                    2 * pa <= pb,
            ;
        }
    }

    /// The order of two magnitudes is the order of the sizes they stand
    /// for. No size is negative, and only the two zeros have size zero.
    pub proof fn lemma_size_order(self, rhs: Scalar)
        ensures
            self.magnitude() < rhs.magnitude() <==> self.size() < rhs.size(),
            self.magnitude() == rhs.magnitude() <==> self.size() == rhs.size(),
            self.size() >= 0,
            self.size() == 0 <==> self.magnitude() == 0,
    {
        if self.magnitude() < rhs.magnitude() {
            self.lemma_size_grows(rhs);
        } else if rhs.magnitude() < self.magnitude() {
            rhs.lemma_size_grows(self);
        }
        let zero = Scalar { bits: 0 };
        assert(zero.size() == 0) by {
            assert(zero.significand() == 0);
            assert(0 * pow2(zero.doublings()) == 0);
        }
        if self.magnitude() > 0 {
            zero.lemma_size_grows(self);
        } else {
            assert(self.significand() == 0 && self.doublings() == 0);
            assert(0 * pow2(0) == 0);
        }
    }

    /// The whole part of a scaled size is the significand, shifted: to the
    /// left where doublings and `k` together exceed 1074, else to the right.
    pub proof fn lemma_floor_scaled(self, k: nat)
        ensures
            self.doublings() + k >= 1074 ==> self.floor_scaled(k) == self.significand() * pow2(
                (self.doublings() + k - 1074) as nat,
            ),
            self.doublings() + k < 1074 ==> self.floor_scaled(k) == self.significand() / (pow2(
                (1074 - self.doublings() - k) as nat,
            ) as int),
            0 <= self.significand() < 2 * HIDDEN_BIT,
    {
        let sig = self.significand();
        let d = self.doublings();
        let up = d + k;
        let unit = pow2(1074) as int;
        lemma_pow2_pos(1074);
        lemma_pow2_pos(up);
        lemma_pow2_adds(d, k);
        assert(self.size() * pow2(k) == sig * pow2(up)) by {
            lemma_mul_is_associative(sig, pow2(d) as int, pow2(k) as int);
        }
        if up >= 1074 {
            let s = (up - 1074) as nat;
            lemma_pow2_pos(s);
            lemma_pow2_adds(s, 1074);
            assert(sig * pow2(up) == (sig * pow2(s)) * unit) by {
                lemma_mul_is_associative(sig, pow2(s) as int, unit);
            }
            assert(0 <= sig * pow2(s)) by {
                lemma_mul_nonnegative(sig, pow2(s) as int);
            }
            lemma_div_by_multiple(sig * pow2(s), unit);
        } else {
            let s = (1074 - up) as nat;
            lemma_pow2_pos(s);
            lemma_pow2_adds(up, s);
            lemma_div_multiples_vanish_quotient(pow2(up) as int, sig, pow2(s) as int);
            assert(sig * pow2(up) == pow2(up) * sig) by {
                lemma_mul_is_commutative(sig, pow2(up) as int);
            }
        }
    }

    pub fn from_bits(bits: u64) -> (s: Scalar)
        ensures
            s.bits == bits,
    {
        Scalar { bits }
    }

    pub fn to_bits(self) -> (bits: u64)
        ensures
            bits == self.bits,
    {
        self.bits
    }

    fn magnitude_bits(self) -> (m: u64)
        ensures
            m == self.magnitude(),
    {
        if self.bits >= SIGN_BIT {
            self.bits - SIGN_BIT
        } else {
            self.bits
        }
    }

    pub fn is_sign_negative(self) -> (b: bool)
        ensures
            b == self.negative(),
    {
        self.bits >= SIGN_BIT
    }

    pub fn is_nan(self) -> (b: bool)
        ensures
            b == self.nan(),
    {
        self.magnitude_bits() > INFINITY_BITS
    }

    /// The whole part of `|self|` times two to the power `k`, or the
    /// largest `u64` where that is larger still, as it is for infinity. The
    /// result for a NaN has no meaning.
    pub fn floor_scaled_saturating(self, k: u32) -> (r: u64)
        ensures
            r == (if self.floor_scaled(k as nat) > u64::MAX {
                u64::MAX as int
            } else {
                self.floor_scaled(k as nat)
            }),
    {
        let m: u64 = self.magnitude_bits();
        let e: u64 = m / HIDDEN_BIT;
        let f: u64 = m % HIDDEN_BIT;
        let sig: u64 = if e == 0 {
            f
        } else {
            f + HIDDEN_BIT
        };
        let d: u64 = if e <= 1 {
            0
        } else {
            e - 1
        };
        let up: u64 = d + k as u64;
        proof {
            self.lemma_floor_scaled(k as nat);
            lemma2_to64();
            lemma2_to64_rest();
        }
        if up >= 1074 {
            let s: u64 = up - 1074;
            if sig == 0 {
                proof {
                    assert(0 * pow2(s as nat) == 0);
                }
                0
            } else if s >= 64 {
                proof {
                    if s > 64 {
                        lemma_pow2_strictly_increases(64, s as nat);
                    }
                    assert(sig * pow2(s as nat) >= pow2(s as nat)) by (nonlinear_arith)
                        requires
                            sig >= 1,
                    ;
                }
                u64::MAX
            } else {
                proof {
                    lemma_u64_mul_pow2_le_max_iff_max_shr(sig, s, u64::MAX);
                }
                if sig <= (u64::MAX >> s) {
                    proof {
                        lemma_u64_shl_is_mul(sig, s);
                    }
                    sig << s
                } else {
                    u64::MAX
                }
            }
        } else {
            let s: u64 = 1074 - up;
            if s >= 64 {
                proof {
                    if s > 64 {
                        lemma_pow2_strictly_increases(64, s as nat);
                    }
                    lemma_basic_div(sig as int, pow2(s as nat) as int);
                }
                0
            } else {
                proof {
                    lemma_u64_shr_is_div(sig, s);
                }
                sig >> s
            }
        }
    }

    /// The number as a `u32`, as a conversion by `as` gives it: truncated
    /// towards zero, with NaN and everything negative at zero and everything
    /// too large at the largest `u32`.
    pub fn to_u32(self) -> (r: u32)
        ensures
            r == self.to_u32_spec(),
    {
        if self.is_nan() || self.is_sign_negative() {
            return 0;
        }
        let whole: u64 = self.floor_scaled_saturating(0);
        if whole > 0xffff_ffff {
            0xffff_ffff
        } else {
            whole as u32
        }
    }

    /// `self < rhs` as the hardware decides it.
    pub fn lt(self, rhs: Scalar) -> (b: bool)
        ensures
            b == self.lt_spec(rhs),
    {
        if self.is_nan() || rhs.is_nan() {
            return false;
        }
        proof {
            self.lemma_size_order(rhs);
            rhs.lemma_size_order(self);
        }
        let a: u64 = self.magnitude_bits();
        let b: u64 = rhs.magnitude_bits();
        if self.bits >= SIGN_BIT {
            if rhs.bits >= SIGN_BIT {
                b < a
            } else {
                a != 0 || b != 0
            }
        } else {
            if rhs.bits >= SIGN_BIT {
                false
            } else {
                a < b
            }
        }
    }

    /// `self <= rhs` as the hardware decides it.
    pub fn le(self, rhs: Scalar) -> (b: bool)
        ensures
            b == self.le_spec(rhs),
    {
        if self.is_nan() || rhs.is_nan() {
            return false;
        }
        proof {
            self.lemma_size_order(rhs);
            rhs.lemma_size_order(self);
        }
        let a: u64 = self.magnitude_bits();
        let b: u64 = rhs.magnitude_bits();
        if self.bits >= SIGN_BIT {
            if rhs.bits >= SIGN_BIT {
                b <= a
            } else {
                true
            }
        } else {
            if rhs.bits >= SIGN_BIT {
                a == 0 && b == 0
            } else {
                a <= b
            }
        }
    }

    /// `self > rhs` as the hardware decides it.
    pub fn gt(self, rhs: Scalar) -> (b: bool)
        ensures
            b == self.gt_spec(rhs),
    {
        rhs.lt(self)
    }

    /// `self >= rhs` as the hardware decides it.
    pub fn ge(self, rhs: Scalar) -> (b: bool)
        ensures
            b == self.ge_spec(rhs),
    {
        rhs.le(self)
    }

    /// `-self`: the sign bit flips and nothing else changes, NaN included.
    pub fn neg(self) -> (r: Scalar)
        ensures
            r == self.neg_spec(),
            r.neg_spec() == self,
            r.magnitude() == self.magnitude(),
            r.negative() != self.negative(),
            r.units() == -self.units(),
    {
        if self.bits >= SIGN_BIT {
            Scalar { bits: self.bits - SIGN_BIT }
        } else {
            Scalar { bits: self.bits + SIGN_BIT }
        }
    }

    /// `|self|`: the sign bit is cleared and nothing else changes.
    pub fn abs(self) -> (r: Scalar)
        ensures
            r == self.abs_spec(),
            r.magnitude() == self.magnitude(),
            !r.negative(),
            r.units() == self.size(),
    {
        Scalar { bits: self.magnitude_bits() }
    }
}

} // verus!
