use rusty_invaders::components::{Direction, Transform, Vec2};

fn rect(x: i64, y: i64, w: i64, h: i64) -> Transform {
    Transform { x, y, width: w, height: h, direction: Direction::Up }
}

#[test]
fn collides_overlapping() {
    let a = rect(0, 0, 10_000, 10_000);
    let b = rect(5_000, 5_000, 10_000, 10_000);
    assert!(a.collides(&b));
    assert!(b.collides(&a));
}

#[test]
fn collides_is_symmetric() {
    let cases = [
        (rect(0, 0, 10_000, 10_000), rect(50_000, 50_000, 1_000, 1_000)),
        (rect(0, 0, 10_000, 10_000), rect(10_000, 10_000, 1_000, 1_000)),
        (rect(-5_000, -5_000, 4_000, 4_000), rect(0, 0, 1_000, 1_000)),
    ];
    for (a, b) in cases {
        assert_eq!(a.collides(&b), b.collides(&a));
    }
}

#[test]
fn collides_touching_edges_inclusive() {
    // right edge of a exactly on left edge of b
    let a = rect(0, 0, 10_000, 10_000);
    let b = rect(10_000, 0, 10_000, 10_000);
    assert!(a.collides(&b));
}

#[test]
fn separated_rectangles_do_not_collide() {
    let a = rect(0, 0, 10_000, 10_000);
    let b = rect(20_000, 30_000, 5_000, 5_000);
    assert!(!a.collides(&b));
    assert!(!b.collides(&a));
}

#[test]
fn exceeds_reports_first_edge_in_fixed_order() {
    let region = rect(50_000, 0, 550_000, 400_000);
    // breaches top and left at once: Up wins
    let r = rect(0, 0, 10_000, 10_000);
    let (out, side) = r.exceeds(&region);
    assert!(out);
    assert_eq!(side, Some(Direction::Up));
    // breaches bottom and right at once: Down wins
    let r = rect(600_000, 395_000, 10_000, 10_000);
    let (out, side) = r.exceeds(&region);
    assert!(out);
    assert_eq!(side, Some(Direction::Down));
    // strictly inside: nothing
    let r = rect(100_000, 100_000, 10_000, 10_000);
    let (out, side) = r.exceeds(&region);
    assert!(!out);
    assert_eq!(side, None);
}

#[test]
fn transform_accessors() {
    let r = rect(10_000, 20_000, 30_000, 40_000);
    assert_eq!(r.x(), 10_000);
    assert_eq!(r.y(), 20_000);
    assert_eq!(r.xw(), 40_000);
    assert_eq!(r.yh(), 60_000);
    assert_eq!(r.center_x(), 25_000);
    assert_eq!(r.center_y(), 40_000);
    assert_eq!(r.center(), Vec2 { x: 25_000, y: 40_000 });
}
