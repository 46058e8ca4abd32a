use collision2d::abs;
use collision2d::Aabb;
use collision2d::Interval;

#[test]
fn range_should_penetrate_self() {
    let range = Interval::from_min_max(0, 1);
    assert_eq!(range.penetration(range).map(abs), Some(1));
}

#[test]
fn can_get_min_max_from_aabb() {
    let aabb = Aabb::from_min_max([1, 2], [3, 4]);
    assert_eq!(aabb.min(), [1, 2]);
    assert_eq!(aabb.max(), [3, 4]);
}

#[test]
fn can_build_from_top_left_and_size() {
    let from_min_max = Aabb::from_min_max([1, 2], [3, 5]);
    let from_rect = Aabb::from_top_left_and_size([1, 2], [2, 3]);
    assert_eq!(from_min_max, from_rect);
    assert_eq!(from_rect.size(), [2, 3]);
    assert_eq!(from_min_max.size(), [2, 3]);
}

#[test]
fn can_build_from_top_left_and_negative_size() {
    let from_min_max = Aabb::from_min_max([1, 2], [3, 5]);
    let from_rect = Aabb::from_top_left_and_size([3, 5], [-2, -3]);
    assert_eq!(from_min_max, from_rect);
}

#[test]
fn can_offset_shape() {
    let aabb = Aabb::from_min_max([1, 2], [3, 4]).with_offset([5, 6]);
    assert_eq!(aabb.min(), [6, 8]);
    assert_eq!(aabb.max(), [8, 10]);
}

#[test]
fn offset_moves_in_place() {
    let mut aabb = Aabb::from_min_max([1, 2], [3, 4]);
    aabb.offset([-1, -2]);
    assert_eq!(aabb.min(), [0, 0]);
    assert_eq!(aabb.max(), [2, 2]);
}

#[test]
fn interval_normalizes_reversed_endpoints() {
    assert_eq!(Interval::from_min_max(5, 3), Interval::from_min_max(3, 5));
    let interval = Interval::from_min_max(5, 3);
    assert_eq!(interval.low, 3);
    assert_eq!(interval.high, 5);
}

#[test]
fn abs_of_negative_is_positive() {
    assert_eq!(abs(-5), 5);
    assert_eq!(abs(7), 7);
    assert_eq!(abs(0), 0);
}
