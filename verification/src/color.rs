//! From colours to the text of an image: bytes per channel, and their
//! decimal digits.
//!
//! A colour arrives gamma-encoded, each channel being the square root of
//! the linear intensity. The root is arithmetic and is the caller's; the
//! clamp to the displayable range, the scaling to a byte and the digits are
//! decided here.

use vstd::prelude::*;
use vstd::arithmetic::div_mod::*;
use vstd::arithmetic::power2::*;
use crate::interval::{Interval, INTENSITY_MAX_BITS};
use crate::scalar::Scalar;
use crate::vector::{Vector, ONE_BITS};

verus! {

pub type Color = Vector;

/// The displayable intensities, from 0.000 to 0.999.
pub open spec fn intensity() -> Interval {
    Interval { min: Scalar { bits: 0 }, max: Scalar { bits: INTENSITY_MAX_BITS } }
}

/// The level of a gamma-encoded channel among the 256 that a byte can
/// hold: the channel is clamped to the displayable intensities, and the
/// level is the whole part of 256 times that. A NaN gives level zero.
pub open spec fn channel_level(gamma: Scalar) -> int {
    let c = intensity().clamp_spec(gamma);
    if c.nan() {
        0
    } else {
        c.floor_scaled(8)
    }
}

/// The decimal digits of `n` in ASCII, without leading zeros.
pub open spec fn decimal(n: nat) -> Seq<u8>
    decreases n,
{
    if n < 10 {
        seq![(48 + n) as u8]
    } else {
        decimal(n / 10).push((48 + n % 10) as u8)
    }
}

/// The line of one pixel: its three levels in decimal, red first, a space
/// between them and a line feed at the end.
pub open spec fn pixel_line(pixel: Color) -> Seq<u8> {
    decimal(channel_level(pixel.e0) as nat) + seq![32u8] + decimal(
        channel_level(pixel.e1) as nat,
    ) + seq![32u8] + decimal(channel_level(pixel.e2) as nat) + seq![10u8]
}

/// The number one is two to the power 1074 units.
pub proof fn lemma_one_in_units()
    ensures
        (Scalar { bits: ONE_BITS }).size() == pow2(1074),
{
    let one = Scalar { bits: ONE_BITS };
    assert(one.exponent_field() == 1023);
    assert(one.fraction_field() == 0);
    lemma2_to64_rest();
    lemma_pow2_adds(52, 1022);
}

/// Every channel has a level that fits a byte.
pub proof fn lemma_channel_level_is_byte(gamma: Scalar)
    ensures
        0 <= channel_level(gamma) <= 255,
{
    let c = intensity().clamp_spec(gamma);
    if !c.nan() {
        let top = Scalar { bits: INTENSITY_MAX_BITS };
        let one = Scalar { bits: ONE_BITS };
        let unit = pow2(1074) as int;
        lemma_one_in_units();
        top.lemma_size_grows(one);
        c.lemma_size_order(top);
        assert(0 <= c.size() < unit);
        lemma2_to64();
        lemma_pow2_pos(1074);
        assert(c.size() * pow2(8) < unit * 256) by (nonlinear_arith)
            requires
                0 <= c.size() < unit,
                pow2(8) == 256,
        ;
        assert(0 <= c.size() * pow2(8)) by (nonlinear_arith)
            requires
                0 <= c.size(),
                pow2(8) == 256,
        ;
        lemma_multiply_divide_lt(c.size() * pow2(8), unit, 256);
        lemma_div_pos_is_pos(c.size() * pow2(8), unit);
    }
}

/// The ends of the scale: a channel at or above the largest displayable
/// intensity, the number one among them, has level 255; a channel at or
/// below zero has level 0.
pub proof fn lemma_channel_level_ends(gamma: Scalar)
    ensures
        gamma.ge_spec(Scalar { bits: INTENSITY_MAX_BITS }) ==> channel_level(gamma) == 255,
        gamma.le_spec(Scalar { bits: 0 }) ==> channel_level(gamma) == 0,
        (Scalar { bits: ONE_BITS }).ge_spec(Scalar { bits: INTENSITY_MAX_BITS }),
{
    let zero = Scalar { bits: 0 };
    let top = Scalar { bits: INTENSITY_MAX_BITS };
    let one = Scalar { bits: ONE_BITS };
    let c = intensity().clamp_spec(gamma);
    gamma.lemma_size_order(zero);
    gamma.lemma_size_order(top);
    zero.lemma_size_order(gamma);
    top.lemma_size_order(zero);
    top.lemma_size_order(one);
    lemma_pow2_pos(8);
    lemma_pow2_pos(1074);
    if gamma.ge_spec(top) {
        // the clamp gives the top intensity, or a number of its size
        assert(c.size() == top.size());
        top.lemma_floor_scaled(8);
        lemma2_to64_rest();
        assert(top.exponent_field() == 1022);
        assert(top.fraction_field() == 0xf_f7ce_d916_872b);
        assert((1074 - top.doublings() - 8) as nat == 45);
        assert(0x1f_f7ce_d916_872bint / 0x2000_0000_0000int == 255);
        assert(top.floor_scaled(8) == 255);
    }
    if gamma.le_spec(zero) {
        assert(c.size() == 0);
        assert(0 * pow2(8) == 0);
        lemma_div_basics_1(pow2(1074) as int);
    }
}

/// The byte of a gamma-encoded channel.
pub fn channel_byte(gamma: Scalar) -> (b: u8)
    ensures
        b == channel_level(gamma),
        gamma.ge_spec(Scalar { bits: INTENSITY_MAX_BITS }) ==> b == 255,
        gamma.le_spec(Scalar { bits: 0 }) ==> b == 0,
{
    let c = Interval::intensity_interval().clamp(gamma);
    proof {
        lemma_channel_level_is_byte(gamma);
        lemma_channel_level_ends(gamma);
    }
    if c.is_nan() {
        0
    } else {
        let level: u64 = c.floor_scaled_saturating(8);
        level as u8
    }
}

/// Appends the decimal digits of `n`.
pub fn write_decimal(out: &mut Vec<u8>, n: u32)
    ensures
        final(out)@ == old(out)@ + decimal(n as nat),
    decreases n,
{
    if n >= 10 {
        write_decimal(out, n / 10);
    }
    let digit: u32 = n % 10;
    out.push((48 + digit) as u8);
    proof {
        if n >= 10 {
            assert(out@ == old(out)@ + decimal((n / 10) as nat).push((48 + n % 10) as u8));
        } else {
            assert(out@ == old(out)@ + seq![(48 + n) as u8]);
        }
    }
}

/// Appends the line of one gamma-encoded pixel.
pub fn write_color(out: &mut Vec<u8>, pixel_color: Color)
    ensures
        final(out)@ == old(out)@ + pixel_line(pixel_color),
{
    let rbyte: u8 = channel_byte(pixel_color.x());
    let gbyte: u8 = channel_byte(pixel_color.y());
    let bbyte: u8 = channel_byte(pixel_color.z());
    proof {
        lemma_channel_level_is_byte(pixel_color.e0);
        lemma_channel_level_is_byte(pixel_color.e1);
        lemma_channel_level_is_byte(pixel_color.e2);
    }
    write_decimal(out, rbyte as u32);
    out.push(32);
    write_decimal(out, gbyte as u32);
    out.push(32);
    write_decimal(out, bbyte as u32);
    out.push(10);
    proof {
        assert(out@ == old(out)@ + pixel_line(pixel_color));
    }
}

} // verus!
