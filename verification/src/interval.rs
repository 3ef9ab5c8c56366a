//! Ranges of numbers: the bounds on a ray parameter, the clamp of a colour
//! channel.

use vstd::prelude::*;
use crate::scalar::{Scalar, INFINITY_BITS, SIGN_BIT};

verus! {

/// The pattern of 0.999, the upper end of the displayable intensities.
pub const INTENSITY_MAX_BITS: u64 = 0x3fef_f7ce_d916_872b;

/// The numbers from `min` to `max`; whether the ends belong to it is up to
/// the test that is asked ([`Interval::contains`], [`Interval::surrounds`]).
#[derive(Clone, Copy, Debug, PartialEq, Eq, Structural)]
pub struct Interval {
    pub max: Scalar,
    pub min: Scalar,
}

impl Interval {
    /// `min <= x <= max`.
    pub open spec fn contains_spec(self, x: Scalar) -> bool {
        x.ge_spec(self.min) && x.le_spec(self.max)
    }

    /// `min < x < max`.
    pub open spec fn surrounds_spec(self, x: Scalar) -> bool {
        x.gt_spec(self.min) && x.lt_spec(self.max)
    }

    /// The nearest end where `x` lies outside, else `x` itself. A NaN
    /// compares with nothing and passes through.
    pub open spec fn clamp_spec(self, x: Scalar) -> Scalar {
        if x.lt_spec(self.min) {
            self.min
        } else if x.gt_spec(self.max) {
            self.max
        } else {
            x
        }
    }

    /// The interval that holds no number: from plus infinity to minus
    /// infinity.
    pub fn empty() -> (r: Interval)
        ensures
            r.min.bits == INFINITY_BITS,
            r.max.bits == INFINITY_BITS + SIGN_BIT,
            forall|x: Scalar| !r.contains_spec(x),
    {
        let r = Interval {
            max: Scalar { bits: INFINITY_BITS + SIGN_BIT },
            min: Scalar { bits: INFINITY_BITS },
        };
        proof {
            assert forall|x: Scalar| !r.contains_spec(x) by {
                if !x.nan() {
                    r.min.lemma_size_order(x);
                    r.max.lemma_size_order(x);
                    x.lemma_size_order(r.min);
                }
            }
        }
        r
    }

    pub fn new(min: Scalar, max: Scalar) -> (r: Interval)
        ensures
            r.min == min,
            r.max == max,
    {
        Interval { min, max }
    }

    /// Whether `x` lies in the interval, ends included.
    pub fn contains(&self, x: Scalar) -> (b: bool)
        ensures
            b == self.contains_spec(x),
    {
        x.ge(self.min) && x.le(self.max)
    }

    /// Whether `x` lies strictly inside the interval.
    pub fn surrounds(&self, x: Scalar) -> (b: bool)
        ensures
            b == self.surrounds_spec(x),
            b ==> self.contains_spec(x),
    {
        x.gt(self.min) && x.lt(self.max)
    }

    /// Brings `x` into the interval.
    pub fn clamp(&self, x: Scalar) -> (r: Scalar)
        ensures
            r == self.clamp_spec(x),
            self.contains_spec(x) ==> r == x,
            !x.nan() && self.min.le_spec(self.max) ==> self.contains_spec(r),
    {
        if x.lt(self.min) {
            self.min
        } else if x.gt(self.max) {
            self.max
        } else {
            x
        }
    }

    /// The displayable intensities, from 0.000 to 0.999.
    pub fn intensity_interval() -> (r: Interval)
        ensures
            r.min.bits == 0,
            r.max.bits == INTENSITY_MAX_BITS,
    {
        Interval { min: Scalar { bits: 0 }, max: Scalar { bits: INTENSITY_MAX_BITS } }
    }
}

} // verus!
