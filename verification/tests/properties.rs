use collision2d::Aabb;
use collision2d::Collides;
use collision2d::Interval;
use collision2d::Penetration;

#[test]
fn self_penetration_magnitude_is_smaller_extent() {
    // A 4-by-2 box penetrates itself by its smaller extent.
    let shape = Aabb::from_min_max([0, 0], [4, 2]);
    assert!(shape.collides(&shape));
    let [x, y] = shape.penetration(&shape).unwrap();
    assert_eq!(x.abs() + y.abs(), 2);
}

#[test]
fn overlap_is_symmetric() {
    let a = Aabb::from_min_max([0, 0], [2, 2]);
    let b = Aabb::from_min_max([1, 1], [3, 3]);
    let c = Aabb::from_min_max([5, 5], [6, 6]);
    assert_eq!(a.collides(&b), b.collides(&a));
    assert_eq!(a.collides(&c), c.collides(&a));
    assert!(a.collides(&b));
    assert!(!a.collides(&c));
}

#[test]
fn separation_along_x_alone_means_no_collision() {
    // Full overlap along y, disjoint along x.
    let a = Aabb::from_min_max([0, 0], [1, 1]);
    let b = Aabb::from_min_max([2, 0], [3, 1]);
    assert!(!a.collides(&b));
    assert_eq!(a.penetration(&b), None);
}

#[test]
fn touching_edges_do_not_collide() {
    let a = Aabb::from_min_max([0, 0], [1, 1]);
    let right = Aabb::from_min_max([1, 0], [2, 1]);
    let below = Aabb::from_min_max([0, 1], [1, 2]);
    assert!(!a.collides(&right));
    assert!(!a.collides(&below));
    assert_eq!(a.penetration(&right), None);
    assert_eq!(a.penetration(&below), None);
}

#[test]
fn smaller_axis_carries_the_correction() {
    // Half overlap along x, full overlap along y: x carries the correction.
    let a = Aabb::from_min_max([0, 0], [2, 2]);
    let b = Aabb::from_min_max([1, 0], [3, 2]);
    assert_eq!(a.penetration(&b), Some([-1, 0]));
}

#[test]
fn equal_axis_magnitudes_resolve_to_y() {
    // Both axes penetrate by 1; the tie goes to the y axis.
    let a = Aabb::from_min_max([0, 0], [2, 2]);
    let b = Aabb::from_min_max([1, 1], [3, 3]);
    assert_eq!(a.penetration(&b), Some([0, -1]));
}

#[test]
fn max_penetration_selects_largest_magnitude() {
    let shape = Aabb::from_min_max([0, 0], [4, 4]);
    let shallow = Aabb::from_min_max([3, 0], [5, 4]);
    let deep = Aabb::from_min_max([2, 0], [6, 4]);
    assert_eq!(shape.penetration(&shallow), Some([-1, 0]));
    assert_eq!(shape.penetration(&deep), Some([-2, 0]));
    assert_eq!(shape.max_penetration(&[shallow, deep]), Some([-2, 0]));
    assert_eq!(shape.max_penetration(&[deep, shallow]), Some([-2, 0]));
}

#[test]
fn max_penetration_of_non_penetrating_shapes_is_none() {
    let shape = Aabb::from_min_max([0, 0], [1, 1]);
    let far = Aabb::from_min_max([5, 5], [6, 6]);
    let touching = Aabb::from_min_max([1, 0], [2, 1]);
    assert_eq!(shape.max_penetration(&[far, touching]), None);
    let empty: [Aabb; 0] = [];
    assert_eq!(shape.max_penetration(&empty), None);
}

#[test]
fn max_penetration_tie_keeps_the_first() {
    let shape = Aabb::from_min_max([0, 0], [4, 4]);
    let from_right = Aabb::from_min_max([2, 0], [6, 4]);
    let from_left = Aabb::from_min_max([-2, 0], [2, 4]);
    assert_eq!(shape.penetration(&from_right), Some([-2, 0]));
    assert_eq!(shape.penetration(&from_left), Some([2, 0]));
    assert_eq!(shape.max_penetration(&[from_right, from_left]), Some([-2, 0]));
    assert_eq!(shape.max_penetration(&[from_left, from_right]), Some([2, 0]));
}

#[test]
fn construction_normalizes_swapped_corners() {
    let straight = Aabb::from_min_max([1, 2], [3, 5]);
    let swapped = Aabb::from_min_max([3, 5], [1, 2]);
    assert_eq!(straight, swapped);
}

#[test]
fn collides_any_finds_a_later_match() {
    let shape = Aabb::from_min_max([0, 0], [2, 2]);
    let miss = Aabb::from_min_max([5, 5], [6, 6]);
    let hit = Aabb::from_min_max([1, 1], [3, 3]);
    assert!(shape.collides_any(&[miss, hit]));
    assert!(!shape.collides_any(&[miss, miss]));
}

#[test]
fn degenerate_interval_still_penetrates() {
    // A zero-width interval inside a wider one overlaps and penetrates.
    let point = Interval::from_min_max(0, 0);
    let wide = Interval::from_min_max(-1, 1);
    assert!(point.collides(&wide));
    assert_eq!(point.penetration(wide), Some(1));
}

#[test]
fn interval_touching_endpoints_do_not_overlap() {
    let left = Interval::from_min_max(0, 1);
    let right = Interval::from_min_max(1, 2);
    assert!(!left.collides(&right));
    assert_eq!(left.penetration(right), None);
}
