use gravity::{restrict_to_bounds, Direction, Vector2};

#[test]
fn vector_new_holds_components() {
    let v = Vector2::new(3, -4);
    assert_eq!(v.x, 3);
    assert_eq!(v.y, -4);
}

#[test]
fn vector_add_accumulates() {
    let mut v = Vector2::new(1, 2);
    v.add(&Vector2::new(10, -20));
    v.add(&Vector2::new(100, 200));
    assert_eq!(v, Vector2::new(111, 182));
}

#[test]
fn restrict_clamps_low_edges() {
    let mut p = Vector2::new(-50, 3);
    restrict_to_bounds(&mut p, [10, 10, 1000, 500]);
    assert_eq!(p, Vector2::new(10, 10));
}

#[test]
fn restrict_clamps_high_edges() {
    let mut p = Vector2::new(995, 490);
    restrict_to_bounds(&mut p, [10, 10, 1000, 500]);
    assert_eq!(p, Vector2::new(990, 490));
    let mut q = Vector2::new(2000, 9000);
    restrict_to_bounds(&mut q, [10, 20, 1000, 500]);
    assert_eq!(q, Vector2::new(990, 480));
}

#[test]
fn restrict_touching_edge_counts_as_outside() {
    let mut p = Vector2::new(10, 480);
    restrict_to_bounds(&mut p, [10, 20, 1000, 500]);
    assert_eq!(p, Vector2::new(10, 480));
    let mut q = Vector2::new(990, 20);
    restrict_to_bounds(&mut q, [10, 20, 1000, 500]);
    assert_eq!(q, Vector2::new(990, 20));
}

#[test]
fn restrict_leaves_inside_points() {
    let mut p = Vector2::new(500, 250);
    restrict_to_bounds(&mut p, [10, 10, 1000, 500]);
    assert_eq!(p, Vector2::new(500, 250));
}

#[test]
fn restrict_is_idempotent() {
    for start in [(-7, -7), (0, 0), (5, 600), (999, 1), (400, 300), (10_000, -10_000)] {
        let bounds = [20, 30, 800, 600];
        let mut once = Vector2::new(start.0, start.1);
        restrict_to_bounds(&mut once, bounds);
        let mut twice = once;
        restrict_to_bounds(&mut twice, bounds);
        assert_eq!(once, twice);
    }
}

#[test]
fn restrict_on_too_narrow_arena_is_not_idempotent() {
    let mut p = Vector2::new(12, 12);
    restrict_to_bounds(&mut p, [10, 10, 15, 15]);
    assert_eq!(p, Vector2::new(5, 5));
    restrict_to_bounds(&mut p, [10, 10, 15, 15]);
    assert_eq!(p, Vector2::new(10, 10));
}

#[test]
fn directions_compare() {
    assert_eq!(Direction::EAST, Direction::EAST);
    assert_ne!(Direction::EAST, Direction::WEST);
}
