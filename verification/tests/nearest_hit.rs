use caster::hit::{Intersection, Ray};
use caster::nearest::{choose_closest, closest_of};

fn hit(x: f32, y: f32, len: f32) -> Intersection {
    Intersection::new(x.to_bits(), y.to_bits(), len.to_bits())
}

#[test]
fn intersection_getters_return_the_fields() {
    let h = hit(1.5, -2.0, 2.5);
    assert_eq!(f32::from_bits(h.x()), 1.5);
    assert_eq!(f32::from_bits(h.y()), -2.0);
    assert_eq!(f32::from_bits(h.len()), 2.5);
    assert!(h.is_valid());
}

#[test]
fn intersection_validity() {
    assert!(!hit(f32::NAN, 0.0, 1.0).is_valid());
    assert!(!hit(0.0, f32::INFINITY, 1.0).is_valid());
    assert!(!hit(0.0, 0.0, -1.0).is_valid());
    assert!(!hit(0.0, 0.0, f32::INFINITY).is_valid());
    assert!(hit(0.0, 0.0, 0.0).is_valid());
}

#[test]
fn ray_getters_return_the_fields() {
    let h = hit(5.0, 0.0, 5.0);
    let r = Ray::new(1.0f32.to_bits(), 2.0f32.to_bits(), 0.25f32.to_bits(), Some(h));
    assert_eq!(f32::from_bits(r.x()), 1.0);
    assert_eq!(f32::from_bits(r.y()), 2.0);
    assert_eq!(f32::from_bits(r.angle()), 0.25);
    assert_eq!(r.intersection(), Some(h));
    let empty = Ray::new(0, 0, 0, None);
    assert_eq!(empty.intersection(), None);
}

#[test]
fn nearer_of_two_is_kept_in_either_order() {
    let near = hit(3.0, 0.0, 3.0);
    let far = hit(7.0, 0.0, 7.0);
    assert_eq!(choose_closest(Some(near), Some(far)), Some(near));
    assert_eq!(choose_closest(Some(far), Some(near)), Some(near));
}

#[test]
fn tie_keeps_the_first() {
    let a = hit(3.0, 4.0, 5.0);
    let b = hit(-3.0, 4.0, 5.0);
    assert_eq!(choose_closest(Some(a), Some(b)), Some(a));
    assert_eq!(choose_closest(Some(b), Some(a)), Some(b));
}

#[test]
fn present_beats_absent() {
    let a = hit(1.0, 1.0, 1.5);
    assert_eq!(choose_closest(Some(a), None), Some(a));
    assert_eq!(choose_closest(None, Some(a)), Some(a));
    assert_eq!(choose_closest(None, None), None);
}

#[test]
fn merging_is_associative_on_samples() {
    let all = [None, Some(hit(1.0, 0.0, 1.0)), Some(hit(0.0, 1.0, 1.0)), Some(hit(2.0, 0.0, 2.0))];
    for a in all {
        for b in all {
            for c in all {
                assert_eq!(
                    choose_closest(choose_closest(a, b), c),
                    choose_closest(a, choose_closest(b, c))
                );
            }
        }
    }
}

#[test]
fn nearest_of_none_is_none() {
    assert_eq!(closest_of(&Vec::new()), None);
    assert_eq!(closest_of(&vec![None, None, None]), None);
}

#[test]
fn nearest_of_many_is_the_first_minimum() {
    let a = hit(4.0, 0.0, 4.0);
    let b = hit(0.0, 2.0, 2.0);
    let c = hit(2.0, 0.0, 2.0);
    let d = hit(9.0, 0.0, 9.0);
    assert_eq!(closest_of(&vec![Some(a), None, Some(b), Some(c), Some(d)]), Some(b));
    assert_eq!(closest_of(&vec![Some(d), Some(c), Some(b), None, Some(a)]), Some(c));
}

#[test]
fn nearest_distance_ignores_order() {
    let hits = [Some(hit(7.0, 0.0, 7.0)), None, Some(hit(3.0, 0.0, 3.0)), Some(hit(0.0, 5.0, 5.0))];
    let orders: [[usize; 4]; 6] =
        [[0, 1, 2, 3], [3, 2, 1, 0], [2, 0, 3, 1], [1, 3, 0, 2], [0, 2, 1, 3], [3, 0, 2, 1]];
    for order in orders {
        let v: Vec<Option<Intersection>> = order.iter().map(|&i| hits[i]).collect();
        let got = closest_of(&v).expect("a hit is present");
        assert_eq!(f32::from_bits(got.len()), 3.0);
    }
}
