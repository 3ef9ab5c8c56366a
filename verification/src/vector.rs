//! Triples of numbers: directions, points and linear colours alike.
//!
//! Sums, products and lengths of vectors round and are computed by the
//! caller. What can be said of a vector without rounding is here: its
//! components, its negation, whether it is too short to give a direction,
//! and whether a random candidate may be kept.

use vstd::prelude::*;
use crate::scalar::Scalar;

verus! {

/// The pattern of 1e-8: components below it count as zero.
pub const NEAR_ZERO_BITS: u64 = 0x3e45_798e_e230_8c3a;

/// The pattern of 1e-160: a candidate whose squared length is not above it
/// cannot be normalised safely.
pub const SHORTEST_SAMPLE_BITS: u64 = 0x1eb6_7e9c_127b_6e74;

/// The pattern of 1.0.
pub const ONE_BITS: u64 = 0x3ff0_0000_0000_0000;

#[derive(Clone, Copy, Debug, PartialEq, Eq, Structural)]
pub struct Vector {
    pub e0: Scalar,
    pub e1: Scalar,
    pub e2: Scalar,
}

pub type Point = Vector;

impl Vector {
    /// The vector with every component's sign flipped.
    pub open spec fn neg_spec(self) -> Vector {
        Vector { e0: self.e0.neg_spec(), e1: self.e1.neg_spec(), e2: self.e2.neg_spec() }
    }

    /// Every component is below 1e-8 in absolute value.
    pub open spec fn near_zero_spec(self) -> bool {
        let s = Scalar { bits: NEAR_ZERO_BITS };
        self.e0.abs_spec().lt_spec(s) && self.e1.abs_spec().lt_spec(s) && self.e2.abs_spec().lt_spec(
            s,
        )
    }

    /// A squared length from which a point of the unit ball can be
    /// normalised: above 1e-160 and at most 1.
    pub open spec fn in_unit_ball_spec(length_squared: Scalar) -> bool {
        length_squared.gt_spec(Scalar { bits: SHORTEST_SAMPLE_BITS }) && length_squared.le_spec(
            Scalar { bits: ONE_BITS },
        )
    }

    /// A squared length strictly below 1.
    pub open spec fn in_unit_disk_spec(length_squared: Scalar) -> bool {
        length_squared.lt_spec(Scalar { bits: ONE_BITS })
    }

    pub fn new(e0: Scalar, e1: Scalar, e2: Scalar) -> (v: Vector)
        ensures
            v == (Vector { e0, e1, e2 }),
    {
        Vector { e0, e1, e2 }
    }

    pub fn zero() -> (v: Vector)
        ensures
            v.e0.bits == 0,
            v.e1.bits == 0,
            v.e2.bits == 0,
    {
        Vector { e0: Scalar { bits: 0 }, e1: Scalar { bits: 0 }, e2: Scalar { bits: 0 } }
    }

    pub fn x(&self) -> (r: Scalar)
        ensures
            r == self.e0,
    {
        self.e0
    }

    pub fn y(&self) -> (r: Scalar)
        ensures
            r == self.e1,
    {
        self.e1
    }

    pub fn z(&self) -> (r: Scalar)
        ensures
            r == self.e2,
    {
        self.e2
    }

    /// The component at `i`, counted from zero.
    pub fn index(&self, i: usize) -> (r: Scalar)
        requires
            i < 3,
        ensures
            r == (if i == 0 {
                self.e0
            } else if i == 1 {
                self.e1
            } else {
                self.e2
            }),
    {
        if i == 0 {
            self.e0
        } else if i == 1 {
            self.e1
        } else {
            self.e2
        }
    }

    /// `-self`.
    pub fn neg(self) -> (v: Vector)
        ensures
            v == self.neg_spec(),
    {
        Vector { e0: self.e0.neg(), e1: self.e1.neg(), e2: self.e2.neg() }
    }

    /// Whether the vector is too close to zero in every dimension to serve
    /// as a direction.
    pub fn near_zero(&self) -> (b: bool)
        ensures
            b == self.near_zero_spec(),
    {
        let s = Scalar { bits: NEAR_ZERO_BITS };
        self.e0.abs().lt(s) && self.e1.abs().lt(s) && self.e2.abs().lt(s)
    }

    /// Rejection sampling of a unit vector: whether a candidate drawn from
    /// the cube around the origin, of the squared length given, is kept and
    /// normalised, or thrown away for another draw.
    pub fn in_unit_ball(length_squared: Scalar) -> (b: bool)
        ensures
            b == Self::in_unit_ball_spec(length_squared),
    {
        length_squared.gt(Scalar { bits: SHORTEST_SAMPLE_BITS }) && length_squared.le(
            Scalar { bits: ONE_BITS },
        )
    }

    /// Rejection sampling of a point on the lens: whether a candidate drawn
    /// from the square around the origin, of the squared length given, lies
    /// inside the unit disk.
    pub fn in_unit_disk(length_squared: Scalar) -> (b: bool)
        ensures
            b == Self::in_unit_disk_spec(length_squared),
    {
        length_squared.lt(Scalar { bits: ONE_BITS })
    }

    /// Turns a unit vector into the hemisphere around a normal:
    /// `along_normal` is the dot product of the two, and the vector is kept
    /// where that is positive and reversed where it is not.
    pub fn random_on_hemisphere(on_unit_sphere: Vector, along_normal: Scalar) -> (v: Vector)
        ensures
            v == (if along_normal.gt_spec(Scalar { bits: 0 }) {
                on_unit_sphere
            } else {
                on_unit_sphere.neg_spec()
            }),
    {
        if along_normal.gt(Scalar { bits: 0 }) {
            on_unit_sphere
        } else {
            on_unit_sphere.neg()
        }
    }
}

} // verus!
