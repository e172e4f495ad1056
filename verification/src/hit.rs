//! The values a cast hands back: the point where a ray strikes a shape,
//! and the ray itself.

use vstd::prelude::*;
use crate::single;

verus! {

/// Where a ray strikes a shape. `len` is the distance from the ray's
/// origin to the point `(x, y)`. All three are single-precision patterns.
#[derive(Clone, Copy, Debug, PartialEq, Eq, Structural)]
pub struct Intersection {
    pub x: u32,
    pub y: u32,
    pub len: u32,
}

impl Intersection {
    /// The point is finite and the distance is a finite number that is not negative.
    pub open spec fn valid(&self) -> bool {
        &&& single::finite(self.x)
        &&& single::finite(self.y)
        &&& single::length(self.len)
    }

    /// Valid, and no farther from the origin than `max_len`.
    pub open spec fn within(&self, max_len: u32) -> bool {
        &&& self.valid()
        &&& single::le(self.len, max_len)
    }

    /// The hit at `(x, y)`, `len` from the origin. Nothing is checked.
    pub fn new(x: u32, y: u32, len: u32) -> (r: Self)
        ensures
            r == (Intersection { x, y, len }),
    {
        Intersection { x, y, len }
    }

    pub fn x(&self) -> (r: u32)
        ensures
            r == self.x,
    {
        self.x
    }

    pub fn y(&self) -> (r: u32)
        ensures
            r == self.y,
    {
        self.y
    }

    pub fn len(&self) -> (r: u32)
        ensures
            r == self.len,
    {
        self.len
    }

    /// Whether the point is finite and the distance a finite number that is not negative.
    pub fn is_valid(&self) -> (r: bool)
        ensures
            r == self.valid(),
    {
        single::is_finite(self.x) && single::is_finite(self.y) && single::is_length(self.len)
    }
}

/// One ray of a fan: its origin, its direction in radians, and what it struck.
#[derive(Clone, Copy, Debug, PartialEq, Eq)]
pub struct Ray {
    pub x: u32,
    pub y: u32,
    pub angle: u32,
    pub intersection: Option<Intersection>,
}

impl Ray {
    /// The ray from `(x, y)` at `angle` that struck `intersection`, if anything.
    pub fn new(x: u32, y: u32, angle: u32, intersection: Option<Intersection>) -> (r: Self)
        ensures
            r == (Ray { x, y, angle, intersection }),
    {
        Ray { x, y, angle, intersection }
    }

    pub fn x(&self) -> (r: u32)
        ensures
            r == self.x,
    {
        self.x
    }

    pub fn y(&self) -> (r: u32)
        ensures
            r == self.y,
    {
        self.y
    }

    pub fn angle(&self) -> (r: u32)
        ensures
            r == self.angle,
    {
        self.angle
    }

    /// What the ray struck, if anything.
    pub fn intersection(&self) -> (r: Option<Intersection>)
        ensures
            r == self.intersection,
    {
        match &self.intersection {
            Some(value) => Some(*value),
            None => None,
        }
    }
}

} // verus!
