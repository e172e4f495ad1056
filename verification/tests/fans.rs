use caster::circle::Circle;
use caster::fan::{
    check_accuracy, check_cast, check_circles, check_inputs, check_length, intersection, rays,
    InvalidInput,
};
use caster::hit::{Intersection, Ray};
use caster::segment::{Crossing, LineSegment};

fn hit(x: f32, y: f32, len: f32) -> Intersection {
    Intersection::new(x.to_bits(), y.to_bits(), len.to_bits())
}

fn circle(radius: f32) -> Circle {
    Circle { x: 1.0f32.to_bits(), y: 2.0f32.to_bits(), radius: radius.to_bits() }
}

fn crossing(x: f32, y: f32, len: f32) -> Crossing {
    Crossing {
        segment: LineSegment {
            x1: (x - 1.0).to_bits(),
            y1: (y + 1.0).to_bits(),
            x2: (x + 1.0).to_bits(),
            y2: (y - 1.0).to_bits(),
        },
        ray_run: 1.0f32.to_bits(),
        slope_gap: (-2.0f32).to_bits(),
        x: x.to_bits(),
        y: y.to_bits(),
        len: len.to_bits(),
        cos: 1.0f32.to_bits(),
    }
}

// Angle of ray `i` of `count` over a field of view centred on `view`.
fn sample(view: f32, fov: f32, count: usize, i: usize) -> f32 {
    i as f32 / count as f32 * fov + (view - fov / 2.0)
}

#[test]
fn good_inputs_are_accepted() {
    let circles = vec![circle(0.0), circle(2.5), circle(-0.0)];
    assert_eq!(check_inputs(1, 10.0f32.to_bits(), 0.01f32.to_bits(), &circles), Ok(()));
    assert_eq!(check_inputs(64, 0.0f32.to_bits(), f32::MIN_POSITIVE.to_bits(), &Vec::new()), Ok(()));
}

#[test]
fn zero_rays_are_refused() {
    let r = check_inputs(0, 10.0f32.to_bits(), 0.01f32.to_bits(), &Vec::new());
    assert_eq!(r, Err(InvalidInput::RayCount));
    let r = check_inputs(0, (-1.0f32).to_bits(), 0.0f32.to_bits(), &vec![circle(-1.0)]);
    assert_eq!(r, Err(InvalidInput::RayCount));
}

#[test]
fn negative_ray_length_is_refused() {
    let r = check_inputs(3, (-0.5f32).to_bits(), 0.01f32.to_bits(), &Vec::new());
    assert_eq!(r, Err(InvalidInput::MaxLength));
    let r = check_inputs(3, f32::NAN.to_bits(), 0.01f32.to_bits(), &Vec::new());
    assert_eq!(r, Err(InvalidInput::MaxLength));
}

#[test]
fn accuracy_must_be_positive() {
    for bad in [0.0f32, -0.0, -1.0, f32::NAN] {
        let r = check_inputs(3, 10.0f32.to_bits(), bad.to_bits(), &Vec::new());
        assert_eq!(r, Err(InvalidInput::Accuracy));
    }
}

#[test]
fn first_negative_radius_is_named() {
    let circles = vec![circle(1.0), circle(-2.0), circle(3.0), circle(-4.0)];
    let r = check_inputs(3, 10.0f32.to_bits(), 0.01f32.to_bits(), &circles);
    assert_eq!(r, Err(InvalidInput::Radius(1)));
    let r = check_inputs(3, 10.0f32.to_bits(), 0.01f32.to_bits(), &vec![circle(f32::NAN)]);
    assert_eq!(r, Err(InvalidInput::Radius(0)));
}

#[test]
fn nothing_in_reach_gives_none() {
    assert_eq!(intersection(10.0f32.to_bits(), &Vec::new(), &Vec::new()), None);
    let far = vec![crossing(20.0, 0.0, 20.0), crossing(0.0, 11.0, 11.0)];
    assert_eq!(intersection(10.0f32.to_bits(), &far, &vec![None, None]), None);
}

#[test]
fn nearest_of_segments_and_circles_is_kept() {
    let crossings = vec![crossing(7.0, 0.0, 7.0), crossing(4.0, 3.0, 5.0)];
    let circles = vec![None, Some(hit(3.0, 0.0, 3.0)), Some(hit(6.0, 0.0, 6.0))];
    let ray_len = 10.0f32.to_bits();
    assert_eq!(intersection(ray_len, &crossings, &circles), Some(hit(3.0, 0.0, 3.0)));
    assert_eq!(intersection(ray_len, &crossings, &vec![None]), Some(hit(4.0, 3.0, 5.0)));
    assert_eq!(intersection(ray_len, &Vec::new(), &circles), Some(hit(3.0, 0.0, 3.0)));
}

#[test]
fn a_segment_wins_a_tie_with_a_circle() {
    let crossings = vec![crossing(4.0, 3.0, 5.0)];
    let circles = vec![Some(hit(5.0, 0.0, 5.0))];
    assert_eq!(intersection(10.0f32.to_bits(), &crossings, &circles), Some(hit(4.0, 3.0, 5.0)));
}

#[test]
fn fan_keeps_the_sampling_order() {
    let (view, fov, count) = (1.0f32, 0.5f32, 4usize);
    let casts: Vec<(u32, Option<Intersection>)> = (0..count)
        .map(|i| {
            let found = if i % 2 == 0 { Some(hit(i as f32, 0.0, i as f32)) } else { None };
            (sample(view, fov, count, i).to_bits(), found)
        })
        .collect();
    let fan = rays(2.0f32.to_bits(), 3.0f32.to_bits(), &casts);
    assert_eq!(fan.len(), 4);
    for (i, ray) in fan.iter().enumerate() {
        assert_eq!(*ray, Ray::new(2.0f32.to_bits(), 3.0f32.to_bits(), casts[i].0, casts[i].1));
    }
    assert_eq!(f32::from_bits(fan[0].angle()), 0.75);
    assert_eq!(f32::from_bits(fan[3].angle()), 0.75 + 0.5 * 3.0 / 4.0);
    assert!(f32::from_bits(fan[3].angle()) < 1.25);
}

#[test]
fn single_ray_with_no_field_of_view_looks_straight_ahead() {
    let view = 0.3f32;
    let casts = vec![(sample(view, 0.0, 1, 0).to_bits(), None)];
    let fan = rays(0.0f32.to_bits(), 0.0f32.to_bits(), &casts);
    assert_eq!(fan.len(), 1);
    assert_eq!(f32::from_bits(fan[0].angle()), view);
    assert_eq!(fan[0].intersection(), None);
}

#[test]
fn empty_fan() {
    assert!(rays(0, 0, &Vec::new()).is_empty());
}

#[test]
fn each_input_is_checked_on_its_own() {
    assert_eq!(check_length(0.0f32.to_bits()), Ok(()));
    assert_eq!(check_length(f32::INFINITY.to_bits()), Ok(()));
    assert_eq!(check_length((-1.0e-30f32).to_bits()), Err(InvalidInput::MaxLength));
    assert_eq!(check_accuracy(1.0e-30f32.to_bits()), Ok(()));
    assert_eq!(check_accuracy(0.0f32.to_bits()), Err(InvalidInput::Accuracy));
    assert_eq!(check_circles(&Vec::new()), Ok(()));
    assert_eq!(check_circles(&vec![circle(0.5), circle(0.0)]), Ok(()));
    assert_eq!(check_circles(&vec![circle(0.5), circle(0.0), circle(-0.5)]), Err(InvalidInput::Radius(2)));
}

#[test]
fn one_ray_is_checked_without_a_count() {
    let circles = vec![circle(1.0), circle(-1.0)];
    assert_eq!(check_cast(10.0f32.to_bits(), 0.01f32.to_bits(), &Vec::new()), Ok(()));
    assert_eq!(check_cast((-10.0f32).to_bits(), 0.0f32.to_bits(), &circles), Err(InvalidInput::MaxLength));
    assert_eq!(check_cast(10.0f32.to_bits(), 0.0f32.to_bits(), &circles), Err(InvalidInput::Accuracy));
    assert_eq!(check_cast(10.0f32.to_bits(), 0.01f32.to_bits(), &circles), Err(InvalidInput::Radius(1)));
}
