//! Rays: a point to start from and a direction to go in.

use vstd::prelude::*;
use crate::vector::{Point, Vector};

verus! {

/// The points `origin + t * direction`, one for each number `t`.
#[derive(Clone, Copy, Debug, PartialEq, Eq, Structural)]
pub struct Ray {
    pub origin: Point,
    pub direction: Vector,
}

impl Ray {
    pub fn new(origin: Point, direction: Vector) -> (r: Ray)
        ensures
            r.origin == origin,
            r.direction == direction,
    {
        Ray { origin, direction }
    }

    pub fn origin(&self) -> (p: Point)
        ensures
            p == self.origin,
    {
        self.origin
    }

    pub fn direction(&self) -> (v: Vector)
        ensures
            v == self.direction,
    {
        self.direction
    }
}

} // verus!
