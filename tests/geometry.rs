use mtb_master::geometry::{Rectangle, Vec2i};

fn rect(x: i64, y: i64, w: i64, h: i64) -> Rectangle {
    Rectangle::new(Vec2i::new(x, y), Vec2i::new(w, h))
}

#[test]
fn min_and_max_of_positive_size() {
    let r = rect(1, 2, 3, 4);
    assert_eq!(r.min(), Vec2i::new(1, 2));
    assert_eq!(r.max(), Vec2i::new(4, 6));
}

#[test]
fn min_and_max_of_negative_size() {
    let r = rect(10, 10, -4, -6);
    assert_eq!(r.min(), Vec2i::new(6, 4));
    assert_eq!(r.max(), Vec2i::new(10, 10));
}

#[test]
fn from_min_max_builds_size() {
    let r = Rectangle::from_min_max(Vec2i::new(-2, 3), Vec2i::new(5, 9));
    assert_eq!(r.origin, Vec2i::new(-2, 3));
    assert_eq!(r.size, Vec2i::new(7, 6));
}

#[test]
fn overlapping_rectangles_collide() {
    let a = rect(0, 0, 10, 10);
    let b = rect(5, 5, 10, 10);
    assert!(a.collides_with(&b));
}

#[test]
fn touching_edges_collide() {
    let a = rect(0, 0, 10, 10);
    let b = rect(10, 0, 5, 5);
    assert!(a.collides_with(&b));
    let c = rect(0, 10, 5, 5);
    assert!(a.collides_with(&c));
}

#[test]
fn separated_rectangles_do_not_collide() {
    let a = rect(0, 0, 10, 10);
    assert!(!a.collides_with(&rect(11, 0, 5, 5)));
    assert!(!a.collides_with(&rect(0, 11, 5, 5)));
    assert!(!a.collides_with(&rect(-6, 0, 5, 5)));
}

#[test]
fn overlap_on_one_axis_only_is_no_collision() {
    let a = rect(0, 0, 10, 10);
    let b = rect(2, 20, 3, 3);
    assert!(!a.collides_with(&b));
}

#[test]
fn negative_sizes_are_tolerated() {
    let a = rect(10, 10, -10, -10);
    let b = rect(5, 5, 1, 1);
    assert!(a.collides_with(&b));
    assert!(!a.collides_with(&rect(11, 11, 2, 2)));
}

#[test]
fn collision_is_symmetric() {
    let cases = [
        (rect(0, 0, 10, 10), rect(5, 5, 10, 10)),
        (rect(0, 0, 10, 10), rect(20, 0, 1, 1)),
        (rect(3, 3, -3, -3), rect(3, 3, 1, 1)),
        (rect(-5, 0, 2, 100), rect(-3, 50, 4, -60)),
    ];
    for (a, b) in cases.iter() {
        assert_eq!(a.collides_with(b), b.collides_with(a));
    }
}

#[test]
fn every_rectangle_collides_with_itself() {
    for r in [rect(0, 0, 0, 0), rect(5, -5, 3, 3), rect(1, 1, -7, 2)].iter() {
        assert!(r.collides_with(r));
    }
}
