use diagram_canvas::geometry::Point;
use diagram_canvas::geometry::Rect;

fn rect(x0: i64, y0: i64, x1: i64, y1: i64) -> Rect {
    Rect { min: Point::new(x0, y0), max: Point::new(x1, y1) }
}

#[test]
fn point_constructors() {
    assert_eq!(Point::new(3, -4), Point { x: 3, y: -4 });
    assert_eq!(Point::zero(), Point { x: 0, y: 0 });
}

#[test]
fn from_corners_orders_both_axes() {
    let want = rect(-2, 3, 10, 8);
    assert_eq!(Rect::from_corners(Point::new(-2, 3), Point::new(10, 8)), want);
    assert_eq!(Rect::from_corners(Point::new(10, 8), Point::new(-2, 3)), want);
    assert_eq!(Rect::from_corners(Point::new(-2, 8), Point::new(10, 3)), want);
    assert_eq!(Rect::from_corners(Point::new(10, 3), Point::new(-2, 8)), want);
}

#[test]
fn from_corners_of_one_point_is_that_point() {
    let p = Point::new(5, 5);
    assert_eq!(Rect::from_corners(p, p), rect(5, 5, 5, 5));
}

#[test]
fn from_corners_takes_the_extremes() {
    let r = Rect::from_corners(Point::new(i64::MAX, i64::MIN), Point::new(i64::MIN, i64::MAX));
    assert_eq!(r, rect(i64::MIN, i64::MIN, i64::MAX, i64::MAX));
}

#[test]
fn contains_counts_the_border() {
    let r = rect(0, 0, 10, 5);
    assert!(r.contains(Point::new(0, 0)));
    assert!(r.contains(Point::new(10, 5)));
    assert!(r.contains(Point::new(4, 5)));
    assert!(!r.contains(Point::new(11, 5)));
    assert!(!r.contains(Point::new(4, -1)));
    assert!(!r.contains(Point::new(-1, 2)));
    assert!(!r.contains(Point::new(4, 6)));
}

#[test]
fn intersects_counts_a_shared_border() {
    let r = rect(0, 0, 10, 10);
    assert!(r.intersects(&rect(10, 10, 20, 20)));
    assert!(r.intersects(&rect(-5, -5, 0, 0)));
    assert!(r.intersects(&rect(3, 3, 4, 4)));
    assert!(r.intersects(&rect(-5, 3, 50, 4)));
    assert!(rect(3, 3, 4, 4).intersects(&r));
    assert!(!r.intersects(&rect(11, 0, 20, 10)));
    assert!(!r.intersects(&rect(0, 11, 10, 20)));
    assert!(!r.intersects(&rect(-9, 0, -1, 10)));
    assert!(!r.intersects(&rect(0, -9, 10, -1)));
}
