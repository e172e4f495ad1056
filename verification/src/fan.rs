//! One ray against every shape, and a fan of rays in sampling order.

use vstd::prelude::*;
use crate::circle::Circle;
use crate::hit::{Intersection, Ray};
use crate::nearest::{choose_closest, closer, closest_of, lemma_nearest_is_member, nearest};
use crate::segment::{hits_of, intersection_lines, lemma_hits_of, Crossing};
use crate::single;

verus! {

/// Why a cast was refused before any work was done.
#[derive(Clone, Copy, Debug, PartialEq, Eq)]
pub enum InvalidInput {
    /// No rays were asked for.
    RayCount,
    /// The ray length is not a number that is at least zero.
    MaxLength,
    /// The accuracy is not a number above zero.
    Accuracy,
    /// The radius of the circle at this index is not a number that is at least zero.
    Radius(usize),
}

/// A number that is at least zero.
pub open spec fn not_negative(bits: u32) -> bool {
    single::le(0, bits)
}

/// A number above zero.
pub open spec fn positive(bits: u32) -> bool {
    single::gt(bits, 0)
}

/// Every circle has a radius that is at least zero.
pub open spec fn radii_valid(circles: Seq<Circle>) -> bool {
    forall|i: int| 0 <= i < circles.len() ==> not_negative((#[trigger] circles[i]).radius)
}

/// The inputs of one ray's cast are acceptable.
pub open spec fn cast_valid(max_len: u32, accuracy: u32, circles: Seq<Circle>) -> bool {
    &&& not_negative(max_len)
    &&& positive(accuracy)
    &&& radii_valid(circles)
}

/// The inputs of a fan's cast are acceptable.
pub open spec fn inputs_valid(
    ray_count: usize,
    max_len: u32,
    accuracy: u32,
    circles: Seq<Circle>,
) -> bool {
    &&& ray_count > 0
    &&& cast_valid(max_len, accuracy, circles)
}

/// Accepts a ray length that is a number at least zero.
pub fn check_length(max_len: u32) -> (r: Result<(), InvalidInput>)
    ensures
        r is Ok <==> not_negative(max_len),
        r is Err ==> r == Err::<(), InvalidInput>(InvalidInput::MaxLength),
{
    if single::less_eq(0, max_len) {
        Ok(())
    } else {
        Err(InvalidInput::MaxLength)
    }
}

/// Accepts an accuracy that is a number above zero.
pub fn check_accuracy(accuracy: u32) -> (r: Result<(), InvalidInput>)
    ensures
        r is Ok <==> positive(accuracy),
        r is Err ==> r == Err::<(), InvalidInput>(InvalidInput::Accuracy),
{
    if single::greater(accuracy, 0) {
        Ok(())
    } else {
        Err(InvalidInput::Accuracy)
    }
}

/// Accepts circles whose radii are all numbers at least zero, or names
/// the first whose radius is not.
pub fn check_circles(circles: &Vec<Circle>) -> (r: Result<(), InvalidInput>)
    ensures
        r is Ok <==> radii_valid(circles@),
        r is Err ==> {
            &&& r->Err_0 matches InvalidInput::Radius(k)
            &&& k < circles.len()
            &&& !not_negative(circles[k as int].radius)
            &&& radii_valid(circles@.take(k as int))
        },
{
    let mut i: usize = 0;
    while i < circles.len()
        invariant
            i <= circles.len(),
            radii_valid(circles@.take(i as int)),
        decreases circles.len() - i,
    {
        if !single::less_eq(0, circles[i].radius) {
            return Err(InvalidInput::Radius(i));
        }
        proof {
            let done = circles@.take(i + 1);
            assert forall|j: int| 0 <= j < done.len() implies not_negative(
                (#[trigger] done[j]).radius,
            ) by {
                if j < i {
                    assert(done[j] == circles@.take(i as int)[j]);
                }
            }
        }
        i += 1;
    }
    proof {
        assert(circles@.take(i as int) =~= circles@);
    }
    Ok(())
}

/// Accepts the inputs of one ray's cast or names the first thing wrong
/// with them: the ray length, then the accuracy, then the first circle
/// with a bad radius.
pub fn check_cast(max_len: u32, accuracy: u32, circles: &Vec<Circle>) -> (r: Result<
    (),
    InvalidInput,
>)
    ensures
        r is Ok <==> cast_valid(max_len, accuracy, circles@),
        r == Err::<(), InvalidInput>(InvalidInput::MaxLength) <==> !not_negative(max_len),
        r == Err::<(), InvalidInput>(InvalidInput::Accuracy) <==> not_negative(max_len)
            && !positive(accuracy),
        r is Err ==> r->Err_0 !is RayCount,
        r matches Err(InvalidInput::Radius(k)) ==> {
            &&& not_negative(max_len) && positive(accuracy)
            &&& k < circles.len()
            &&& !not_negative(circles[k as int].radius)
            &&& radii_valid(circles@.take(k as int))
        },
{
    match check_length(max_len) {
        Err(e) => {
            return Err(e);
        },
        Ok(_) => {},
    }
    match check_accuracy(accuracy) {
        Err(e) => {
            return Err(e);
        },
        Ok(_) => {},
    }
    check_circles(circles)
}

/// Accepts the inputs of a fan's cast or names the first thing wrong
/// with them: the ray count, then what is wrong with one ray's cast.
pub fn check_inputs(ray_count: usize, max_len: u32, accuracy: u32, circles: &Vec<Circle>) -> (r:
    Result<(), InvalidInput>)
    ensures
        r is Ok <==> inputs_valid(ray_count, max_len, accuracy, circles@),
        r == Err::<(), InvalidInput>(InvalidInput::RayCount) <==> ray_count == 0,
        r == Err::<(), InvalidInput>(InvalidInput::MaxLength) <==> ray_count > 0 && !not_negative(
            max_len,
        ),
        r == Err::<(), InvalidInput>(InvalidInput::Accuracy) <==> ray_count > 0 && not_negative(
            max_len,
        ) && !positive(accuracy),
        r matches Err(InvalidInput::Radius(k)) ==> {
            &&& ray_count > 0 && not_negative(max_len) && positive(accuracy)
            &&& k < circles.len()
            &&& !not_negative(circles[k as int].radius)
            &&& radii_valid(circles@.take(k as int))
        },
{
    if ray_count == 0 {
        return Err(InvalidInput::RayCount);
    }
    check_cast(max_len, accuracy, circles)
}

/// What one ray strikes first: the nearest of its hits on segments and
/// of its hits on circles, a segment winning a tie.
pub fn intersection(
    ray_len: u32,
    crossings: &Vec<Crossing>,
    circle_hits: &Vec<Option<Intersection>>,
) -> (r: Option<Intersection>)
    ensures
        r == closer(nearest(hits_of(ray_len, crossings@)), nearest(circle_hits@)),
        r is None <==> {
            &&& forall|i: int|
                0 <= i < crossings.len() ==> !(#[trigger] crossings[i]).strikes(ray_len)
            &&& forall|i: int| 0 <= i < circle_hits.len() ==> circle_hits[i] is None
        },
        (forall|i: int|
            0 <= i < circle_hits.len() && circle_hits[i] is Some ==> (
            #[trigger] circle_hits[i])->0.within(ray_len)) ==> (r is Some ==> r->0.within(
            ray_len,
        )),
{
    let intersect_lines = intersection_lines(ray_len, crossings);
    let intersect_circles = closest_of(circle_hits);
    proof {
        if intersect_circles is Some {
            let k = choose|k: int|
                0 <= k < circle_hits.len() && circle_hits[k] == intersect_circles;
            assert(circle_hits[k] is Some);
        }
    }
    choose_closest(intersect_lines, intersect_circles)
}

/// A ray strikes nothing when every crossing with a segment lies
/// farther than the ray is long or is not ahead of it, and no march
/// toward a circle ended in a hit.
pub proof fn lemma_nothing_in_reach(
    ray_len: u32,
    crossings: Seq<Crossing>,
    circle_hits: Seq<Option<Intersection>>,
)
    requires
        forall|i: int|
            0 <= i < crossings.len() ==> single::gt((#[trigger] crossings[i]).len, ray_len)
                || !crossings[i].ahead(),
        forall|i: int| 0 <= i < circle_hits.len() ==> circle_hits[i] is None,
    ensures
        closer(nearest(hits_of(ray_len, crossings)), nearest(circle_hits)) is None,
{
    lemma_hits_of(ray_len, crossings);
    lemma_nearest_is_member(circle_hits);
}

/// The fan of rays from `(x, y)`: one ray for each sampled angle with
/// what it struck, in the order given.
pub fn rays(x: u32, y: u32, casts: &Vec<(u32, Option<Intersection>)>) -> (r: Vec<Ray>)
    ensures
        r.len() == casts.len(),
        forall|i: int|
            0 <= i < r.len() ==> #[trigger] r[i] == (Ray {
                x,
                y,
                angle: casts[i].0,
                intersection: casts[i].1,
            }),
{
    let mut fan: Vec<Ray> = Vec::with_capacity(casts.len());
    let mut i: usize = 0;
    while i < casts.len()
        invariant
            i <= casts.len(),
            fan.len() == i,
            forall|j: int|
                0 <= j < i ==> #[trigger] fan[j] == (Ray {
                    x,
                    y,
                    angle: casts[j].0,
                    intersection: casts[j].1,
                }),
        decreases casts.len() - i,
    {
        let cast = casts[i];
        fan.push(Ray::new(x, y, cast.0, cast.1));
        i += 1;
    }
    fan
}

} // verus!
