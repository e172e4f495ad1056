//! A ray against line segments: which solved crossings count as hits.
//!
//! The caller solves the ray's line against each segment's line in
//! slope-intercept form and hands over what it found. Whether that
//! crossing is a hit is decided here.

use vstd::prelude::*;
use crate::hit::Intersection;
use crate::nearest::{all_valid, choose_closest, lemma_nearest_is_member, nearest};
use crate::single;

verus! {

/// A segment from `(x1, y1)` to `(x2, y2)`.
#[derive(Clone, Copy, Debug, PartialEq, Eq)]
pub struct LineSegment {
    pub x1: u32,
    pub y1: u32,
    pub x2: u32,
    pub y2: u32,
}

/// The crossing of a ray's line with a segment's line, as solved by the caller.
#[derive(Clone, Copy, Debug, PartialEq, Eq)]
pub struct Crossing {
    pub segment: LineSegment,
    /// Horizontal extent of the ray, the divisor of its slope.
    pub ray_run: u32,
    /// Slope of the segment less slope of the ray.
    pub slope_gap: u32,
    /// The crossing point.
    pub x: u32,
    pub y: u32,
    /// Distance from the ray's origin to the crossing point.
    pub len: u32,
    /// Cosine of the angle at the origin between the ray's far end and the crossing point.
    pub cos: u32,
}

impl Crossing {
    /// The segment is vertical or a single point, so that its slope is a
    /// division by zero.
    pub open spec fn upright(&self) -> bool {
        single::same(self.segment.x1, self.segment.x2)
    }

    /// One of the two slopes is a division by zero, or the solution is not finite.
    pub open spec fn degenerate(&self) -> bool {
        ||| single::zero(self.ray_run)
        ||| self.upright()
        ||| !single::finite(self.x)
        ||| !single::finite(self.y)
        ||| !single::length(self.len)
    }

    /// The two lines have the same slope.
    pub open spec fn parallel(&self) -> bool {
        single::zero(self.slope_gap)
    }

    /// The crossing point lies in the segment's bounding box, edges included.
    pub open spec fn on_segment(&self) -> bool {
        &&& single::between(self.x, self.segment.x1, self.segment.x2)
        &&& single::between(self.y, self.segment.y1, self.segment.y2)
    }

    /// The crossing point lies ahead of the origin, not behind it.
    pub open spec fn ahead(&self) -> bool {
        single::gt(self.cos, 0)
    }

    /// The ray, `ray_len` long, strikes the segment at this crossing.
    pub open spec fn strikes(&self, ray_len: u32) -> bool {
        &&& !self.degenerate()
        &&& !self.parallel()
        &&& self.on_segment()
        &&& single::le(self.len, ray_len)
        &&& self.ahead()
    }

    /// The hit at this crossing, if the ray strikes there.
    pub open spec fn hit(&self, ray_len: u32) -> Option<Intersection> {
        if self.strikes(ray_len) {
            Some(Intersection { x: self.x, y: self.y, len: self.len })
        } else {
            None
        }
    }
}

/// The hit of each crossing in turn.
pub open spec fn hits_of(ray_len: u32, crossings: Seq<Crossing>) -> Seq<Option<Intersection>> {
    crossings.map_values(|c: Crossing| c.hit(ray_len))
}

/// Decides whether a ray of length `ray_len` strikes a segment at a solved crossing.
pub fn intersection_line(ray_len: u32, crossing: &Crossing) -> (r: Option<Intersection>)
    ensures
        r == crossing.hit(ray_len),
        r is Some <==> crossing.strikes(ray_len),
        r is Some ==> r->0.within(ray_len),
{
    if single::is_zero(crossing.ray_run) || single::equal(
        crossing.segment.x1,
        crossing.segment.x2,
    ) {
        return None;
    }
    if single::is_zero(crossing.slope_gap) {
        return None;
    }
    if !single::is_finite(crossing.x) || !single::is_finite(crossing.y) || !single::is_length(
        crossing.len,
    ) {
        return None;
    }
    if !single::is_between(crossing.x, crossing.segment.x1, crossing.segment.x2)
        || !single::is_between(crossing.y, crossing.segment.y1, crossing.segment.y2) {
        return None;
    }
    if !single::less_eq(crossing.len, ray_len) {
        return None;
    }
    if !single::greater(crossing.cos, 0) {
        return None;
    }
    Some(Intersection::new(crossing.x, crossing.y, crossing.len))
}

/// The nearest hit among the crossings of one ray with many segments.
pub fn intersection_lines(ray_len: u32, crossings: &Vec<Crossing>) -> (r: Option<Intersection>)
    ensures
        r == nearest(hits_of(ray_len, crossings@)),
        r is None <==> forall|i: int|
            0 <= i < crossings.len() ==> !(#[trigger] crossings[i]).strikes(ray_len),
        r is Some ==> r->0.within(ray_len),
{
    let mut closest: Option<Intersection> = None;
    let mut i: usize = 0;
    while i < crossings.len()
        invariant
            i <= crossings.len(),
            closest == nearest(hits_of(ray_len, crossings@.take(i as int))),
        decreases crossings.len() - i,
    {
        proof {
            let next = hits_of(ray_len, crossings@.take(i + 1));
            assert(next.drop_last() =~= hits_of(ray_len, crossings@.take(i as int)));
            assert(next.last() == crossings[i as int].hit(ray_len));
        }
        let intersect = intersection_line(ray_len, &crossings[i]);
        closest = choose_closest(closest, intersect);
        i += 1;
    }
    proof {
        assert(crossings@.take(i as int) =~= crossings@);
        lemma_hits_of(ray_len, crossings@);
    }
    closest
}

/// The nearest hit over a set of crossings is absent exactly when the
/// ray strikes at none of them, and otherwise lies within the ray's length.
pub proof fn lemma_hits_of(ray_len: u32, crossings: Seq<Crossing>)
    ensures
        all_valid(hits_of(ray_len, crossings)),
        nearest(hits_of(ray_len, crossings)) is None <==> forall|i: int|
            0 <= i < crossings.len() ==> !(#[trigger] crossings[i]).strikes(ray_len),
        nearest(hits_of(ray_len, crossings)) is Some ==> nearest(
            hits_of(ray_len, crossings),
        )->0.within(ray_len),
{
    let hits = hits_of(ray_len, crossings);
    assert forall|i: int| 0 <= i < hits.len() implies hits[i] == (#[trigger] crossings[i]).hit(
        ray_len,
    ) by {}
    assert(all_valid(hits));
    lemma_nearest_is_member(hits);
    if nearest(hits) is None {
        assert forall|i: int| 0 <= i < crossings.len() implies !(#[trigger] crossings[i]).strikes(
            ray_len,
        ) by {
            assert(hits[i] is None);
        }
    } else {
        let k = choose|k: int| 0 <= k < hits.len() && hits[k] == nearest(hits);
        assert(crossings[k].strikes(ray_len));
    }
}

} // verus!
