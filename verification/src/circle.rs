//! A ray against a circle, by marching toward its surface.
//!
//! The march starts at the ray's origin. At each point the caller
//! measures how far the circle's surface is, and the step decided here
//! says whether that is near enough to count as a hit, whether the march
//! is over without one, or how far to move on along the ray.

use vstd::prelude::*;
use crate::hit::Intersection;
use crate::single;

verus! {

/// A circle: its centre and its radius.
#[derive(Clone, Copy, Debug, PartialEq, Eq)]
pub struct Circle {
    pub x: u32,
    pub y: u32,
    pub radius: u32,
}

/// The most times one march may move on. Each move is longer than the
/// accuracy asked for, but successive moves may shrink toward it, so the
/// ray's length alone does not bound their number usefully.
pub const STEP_LIMIT: u32 = 65_536;

/// Where a march stands: the current point, the distance travelled to
/// reach it, and how many more moves it may make.
#[derive(Clone, Copy, Debug, PartialEq, Eq)]
pub struct March {
    pub x: u32,
    pub y: u32,
    pub len: u32,
    pub steps_left: u32,
}

/// What a march does next.
#[derive(Clone, Copy, Debug, PartialEq, Eq)]
pub enum Step {
    /// The march is over: the ray does not reach the circle.
    Miss,
    /// The current point is near enough to the surface.
    Hit(Intersection),
    /// Move `by` along the ray and measure again, with `steps_left` moves to go.
    Advance { by: u32, steps_left: u32 },
}

impl March {
    /// The current point as a hit.
    pub open spec fn position(&self) -> Intersection {
        Intersection { x: self.x, y: self.y, len: self.len }
    }

    /// The step to take when the surface is `surface_distance` away.
    pub open spec fn next(&self, ray_len: u32, accuracy: u32, surface_distance: u32) -> Step {
        if !self.position().within(ray_len) {
            Step::Miss
        } else if single::le(surface_distance, accuracy) {
            Step::Hit(self.position())
        } else if single::gt(surface_distance, accuracy) && single::length(surface_distance)
            && self.steps_left > 0 {
            Step::Advance { by: surface_distance, steps_left: (self.steps_left - 1) as u32 }
        } else {
            Step::Miss
        }
    }

    /// A march at the ray's origin `(x, y)`, having travelled `len` already.
    pub fn start(x: u32, y: u32, len: u32) -> (r: Self)
        ensures
            r == (March { x, y, len, steps_left: STEP_LIMIT }),
    {
        March { x, y, len, steps_left: STEP_LIMIT }
    }
}

/// One step of the march of a ray of length `ray_len` toward a circle
/// whose surface is `surface_distance` from the current point.
///
/// The march misses where the current point or the distance travelled
/// is not finite, where that distance is negative or more than the ray
/// is long, and where the surface is still too far and the measured
/// distance is no finite number or no moves are left. It hits where the
/// surface is within `accuracy`. Otherwise it moves on by the measured
/// distance.
pub fn intersection_circle(ray_len: u32, accuracy: u32, march: &March, surface_distance: u32) -> (r:
    Step)
    ensures
        r == march.next(ray_len, accuracy, surface_distance),
        r matches Step::Hit(h) ==> h == march.position() && h.within(ray_len) && single::le(
            surface_distance,
            accuracy,
        ),
        r matches Step::Advance { by, steps_left } ==> by == surface_distance && single::gt(
            by,
            accuracy,
        ) && steps_left + 1 == march.steps_left,
        r is Advance && single::gt(accuracy, 0) ==> single::gt(surface_distance, 0),
        march.steps_left == 0 ==> !(r is Advance),
        single::gt(march.len, ray_len) ==> r is Miss,
{
    let here = Intersection::new(march.x, march.y, march.len);
    if !here.is_valid() || !single::less_eq(march.len, ray_len) {
        return Step::Miss;
    }
    if single::less_eq(surface_distance, accuracy) {
        return Step::Hit(here);
    }
    if single::greater(surface_distance, accuracy) && single::is_length(surface_distance)
        && march.steps_left > 0 {
        return Step::Advance { by: surface_distance, steps_left: march.steps_left - 1 };
    }
    Step::Miss
}

} // verus!
