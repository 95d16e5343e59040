use geometry::point::Drawable;
use geometry::point::Point;
use geometry::point::distance_squared;

#[test]
fn new_sets_coordinates() {
    let p = Point::new(3, -7);
    assert_eq!(p.x, 3);
    assert_eq!(p.y, -7);
}

#[test]
fn origin_is_zero() {
    let o = Point::origin();
    assert_eq!(o.x, 0);
    assert_eq!(o.y, 0);
}

#[test]
fn translate_adds_deltas() {
    let mut p = Point::new(1, 2);
    p.translate(3, 4);
    assert_eq!(p.x, 4);
    assert_eq!(p.y, 6);
}

#[test]
fn translate_by_negative_deltas() {
    let mut p = Point::new(10, -10);
    p.translate(-25, 5);
    assert_eq!(p.x, -15);
    assert_eq!(p.y, -5);
}

#[test]
fn translate_twice_accumulates() {
    let mut p = Point::origin();
    p.translate(5, -2);
    p.translate(-1, -2);
    assert_eq!(p.x, 4);
    assert_eq!(p.y, -4);
}

#[test]
fn distance_squared_from_origin_to_itself_is_zero() {
    let o = Point::origin();
    assert_eq!(distance_squared(&o, &o), 0);
}

#[test]
fn distance_squared_three_four() {
    let o = Point::origin();
    let p = Point::new(3, 4);
    assert_eq!(distance_squared(&o, &p), 25);
    assert_eq!(distance_squared(&p, &o), 25);
}

#[test]
fn distance_squared_at_extremes() {
    let a = Point::new(i32::MIN, i32::MIN);
    let b = Point::new(i32::MAX, i32::MAX);
    assert_eq!(distance_squared(&a, &b), 36893488130239234050);
}

#[test]
fn draw_names_the_coordinates() {
    let p = Point::new(3, -4);
    assert_eq!(p.draw(), "Drawing point at (3, -4)");
}

#[test]
fn draw_at_the_origin() {
    let o = Point::origin();
    assert_eq!(o.draw(), "Drawing point at (0, 0)");
}

#[test]
fn draw_at_extremes() {
    let p = Point::new(i32::MIN, i32::MAX);
    assert_eq!(p.draw(), "Drawing point at (-2147483648, 2147483647)");
}
