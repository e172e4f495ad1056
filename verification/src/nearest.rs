//! Keeping the nearer of two hits, and the nearest of many.

use vstd::prelude::*;
use crate::hit::Intersection;
use crate::single;

verus! {

/// The nearer of two optional hits. A present hit beats an absent one;
/// of two present hits the second wins only if it is strictly nearer.
pub open spec fn closer(first: Option<Intersection>, second: Option<Intersection>) -> Option<
    Intersection,
> {
    match (first, second) {
        (Some(a), Some(b)) => if single::gt(a.len, b.len) {
            second
        } else {
            first
        },
        (Some(_), None) => first,
        (None, _) => second,
    }
}

/// The nearest of a sequence of optional hits, taken from the front:
/// among equally near hits the earliest stays.
pub open spec fn nearest(hits: Seq<Option<Intersection>>) -> Option<Intersection>
    decreases hits.len(),
{
    if hits.len() == 0 {
        None
    } else {
        closer(nearest(hits.drop_last()), hits.last())
    }
}

/// Every present hit of the sequence is valid.
pub open spec fn all_valid(hits: Seq<Option<Intersection>>) -> bool {
    forall|i: int| 0 <= i < hits.len() && hits[i] is Some ==> (#[trigger] hits[i])->0.valid()
}

/// Keeps the nearer of two optional hits; the first on a tie.
pub fn choose_closest(first: Option<Intersection>, second: Option<Intersection>) -> (r: Option<
    Intersection,
>)
    ensures
        r == closer(first, second),
        r is None <==> first is None && second is None,
        r == first || r == second,
{
    match &first {
        Some(first_intersection) => match &second {
            Some(second_intersection) => {
                if single::greater(first_intersection.len, second_intersection.len) {
                    second
                } else {
                    first
                }
            },
            None => first,
        },
        None => second,
    }
}

/// The nearest hit of `hits`, or `None` when none is present.
pub fn closest_of(hits: &Vec<Option<Intersection>>) -> (r: Option<Intersection>)
    ensures
        r == nearest(hits@),
        r is None <==> forall|i: int| 0 <= i < hits.len() ==> hits[i] is None,
        r is Some ==> hits@.contains(r),
{
    let mut closest: Option<Intersection> = None;
    let mut i: usize = 0;
    while i < hits.len()
        invariant
            i <= hits.len(),
            closest == nearest(hits@.take(i as int)),
        decreases hits.len() - i,
    {
        proof {
            assert(hits@.take(i + 1).drop_last() =~= hits@.take(i as int));
        }
        closest = choose_closest(closest, hits[i]);
        i += 1;
    }
    proof {
        assert(hits@.take(i as int) =~= hits@);
        lemma_nearest_is_member(hits@);
    }
    closest
}

/// `nearest` picks nothing exactly when nothing is present, and
/// otherwise picks one of the hits it was given.
pub proof fn lemma_nearest_is_member(hits: Seq<Option<Intersection>>)
    ensures
        nearest(hits) is None <==> forall|i: int| 0 <= i < hits.len() ==> hits[i] is None,
        nearest(hits) is Some ==> hits.contains(nearest(hits)),
    decreases hits.len(),
{
    if hits.len() > 0 {
        let front = hits.drop_last();
        let n = hits.len() - 1;
        lemma_nearest_is_member(front);
        assert forall|i: int| 0 <= i < front.len() implies front[i] == hits[i] by {}
        if nearest(front) is None {
            assert forall|i: int| 0 <= i < n implies hits[i] is None by {
                assert(front[i] is None);
            }
        }
        if nearest(hits) is Some {
            if nearest(hits) == hits[n] {
            } else {
                assert(nearest(hits) == nearest(front));
                let k = choose|k: int| 0 <= k < front.len() && front[k] == nearest(front);
                assert(hits[k] == nearest(hits));
            }
        } else {
            assert(hits[n] is None);
            assert(nearest(front) is None);
        }
    }
}

/// Of two present hits at different distances the nearer is kept, in
/// either order; at equal distances the first is.
pub proof fn lemma_closer_picks_smaller(a: Intersection, b: Intersection)
    requires
        !single::nan(a.len),
        !single::nan(b.len),
    ensures
        single::lt(a.len, b.len) ==> closer(Some(a), Some(b)) == Some(a) && closer(
            Some(b),
            Some(a),
        ) == Some(a),
        single::same(a.len, b.len) ==> closer(Some(a), Some(b)) == Some(a),
{
}

/// Whichever way round two hits are merged, the distance kept is the same.
pub proof fn lemma_closer_commutes_in_distance(
    first: Option<Intersection>,
    second: Option<Intersection>,
)
    requires
        first is Some ==> !single::nan(first->0.len),
        second is Some ==> !single::nan(second->0.len),
    ensures
        closer(first, second) is Some <==> closer(second, first) is Some,
        closer(first, second) is Some ==> single::same(
            closer(first, second)->0.len,
            closer(second, first)->0.len,
        ),
{
}

/// Merging is associative.
pub proof fn lemma_closer_associative(
    a: Option<Intersection>,
    b: Option<Intersection>,
    c: Option<Intersection>,
)
    requires
        a is Some ==> !single::nan(a->0.len),
        b is Some ==> !single::nan(b->0.len),
        c is Some ==> !single::nan(c->0.len),
    ensures
        closer(closer(a, b), c) == closer(a, closer(b, c)),
{
}

/// What `nearest` picks: nothing exactly when nothing is present;
/// otherwise a hit of the sequence that none is nearer than, and the
/// earliest such.
pub proof fn lemma_nearest_is_first_minimum(hits: Seq<Option<Intersection>>)
    requires
        all_valid(hits),
    ensures
        nearest(hits) is None <==> forall|i: int| 0 <= i < hits.len() ==> hits[i] is None,
        nearest(hits) is Some ==> exists|k: int|
            {
                &&& 0 <= k < hits.len()
                &&& #[trigger] hits[k] == nearest(hits)
                &&& forall|i: int|
                    0 <= i < hits.len() && hits[i] is Some ==> single::le(
                        nearest(hits)->0.len,
                        (#[trigger] hits[i])->0.len,
                    )
                &&& forall|i: int|
                    0 <= i < k && hits[i] is Some ==> single::lt(
                        nearest(hits)->0.len,
                        (#[trigger] hits[i])->0.len,
                    )
            },
    decreases hits.len(),
{
    if hits.len() > 0 {
        let front = hits.drop_last();
        let n = hits.len() - 1;
        assert(all_valid(front)) by {
            assert forall|i: int| 0 <= i < front.len() && front[i] is Some implies (
            #[trigger] front[i])->0.valid() by {
                assert(front[i] == hits[i]);
            }
        }
        lemma_nearest_is_first_minimum(front);
        assert forall|i: int| 0 <= i < front.len() implies front[i] == hits[i] by {}
        if nearest(front) is None {
            assert forall|i: int| 0 <= i < n implies hits[i] is None by {
                assert(front[i] is None);
            }
            if hits.last() is Some {
                assert(hits[n] == nearest(hits));
            }
        } else {
            let k = choose|k: int|
                {
                    &&& 0 <= k < front.len()
                    &&& #[trigger] front[k] == nearest(front)
                    &&& forall|i: int|
                        0 <= i < front.len() && front[i] is Some ==> single::le(
                            nearest(front)->0.len,
                            (#[trigger] front[i])->0.len,
                        )
                    &&& forall|i: int|
                        0 <= i < k && front[i] is Some ==> single::lt(
                            nearest(front)->0.len,
                            (#[trigger] front[i])->0.len,
                        )
                };
            assert(hits[k] == front[k]);
            assert(hits[k] is Some);
            let best = nearest(front)->0;
            assert(best.valid());
            if hits.last() is Some && single::gt(best.len, hits.last()->0.len) {
                let last = hits.last()->0;
                assert(hits[n] is Some);
                assert(last.valid());
                assert(nearest(hits) == hits[n]);
                assert forall|i: int| 0 <= i < hits.len() && hits[i] is Some implies single::le(
                    last.len,
                    (#[trigger] hits[i])->0.len,
                ) by {
                    if i < n {
                        assert(front[i] is Some);
                        assert(single::le(best.len, front[i]->0.len));
                    }
                }
                assert forall|i: int| 0 <= i < n && hits[i] is Some implies single::lt(
                    last.len,
                    (#[trigger] hits[i])->0.len,
                ) by {
                    assert(front[i] is Some);
                    assert(single::le(best.len, front[i]->0.len));
                }
            } else {
                assert(nearest(hits) == nearest(front));
                assert(hits[k] == nearest(hits));
                assert forall|i: int| 0 <= i < hits.len() && hits[i] is Some implies single::le(
                    best.len,
                    (#[trigger] hits[i])->0.len,
                ) by {
                    if i < n {
                        assert(front[i] is Some);
                    } else {
                        assert(hits[i] == hits.last());
                        assert(hits.last()->0.valid());
                    }
                }
                assert forall|i: int| 0 <= i < k && hits[i] is Some implies single::lt(
                    best.len,
                    (#[trigger] hits[i])->0.len,
                ) by {
                    assert(front[i] is Some);
                }
            }
        }
    }
}

/// The distance of the nearest hit does not depend on the order of the
/// hits, nor on how often each occurs: two sequences that hold the same
/// hits give the same distance.
pub proof fn lemma_nearest_distance_ignores_order(
    s: Seq<Option<Intersection>>,
    t: Seq<Option<Intersection>>,
)
    requires
        all_valid(s),
        all_valid(t),
        forall|i: int| 0 <= i < s.len() ==> t.contains(#[trigger] s[i]),
        forall|j: int| 0 <= j < t.len() ==> s.contains(#[trigger] t[j]),
    ensures
        nearest(s) is Some <==> nearest(t) is Some,
        nearest(s) is Some ==> nearest(s)->0.len == nearest(t)->0.len,
{
    lemma_nearest_is_first_minimum(s);
    lemma_nearest_is_first_minimum(t);
    if nearest(s) is Some {
        let k = choose|k: int| 0 <= k < s.len() && #[trigger] s[k] == nearest(s);
        assert(t.contains(s[k]));
        let j = choose|j: int| 0 <= j < t.len() && t[j] == s[k];
        assert(t[j] is Some);
        assert(nearest(t) is Some);
        let m = choose|m: int| 0 <= m < t.len() && #[trigger] t[m] == nearest(t);
        assert(s.contains(t[m]));
        let l = choose|l: int| 0 <= l < s.len() && s[l] == t[m];
        assert(s[l] is Some);
        assert(single::le(nearest(s)->0.len, s[l]->0.len));
        assert(single::le(nearest(t)->0.len, t[j]->0.len));
        assert(s[k]->0.valid());
        assert(t[m]->0.valid());
        single::lemma_lengths_order(nearest(s)->0.len, nearest(t)->0.len);
    } else {
        if nearest(t) is Some {
            let m = choose|m: int| 0 <= m < t.len() && #[trigger] t[m] == nearest(t);
            assert(s.contains(t[m]));
            let l = choose|l: int| 0 <= l < s.len() && s[l] == t[m];
            assert(s[l] is Some);
        }
    }
}

} // verus!
