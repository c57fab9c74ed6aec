use chicolli::point::{Point, Vector};
use chicolli::spline::{calc_whole_spline, window_controls};

#[test]
fn collinear_window_controls_lie_on_the_line() {
    let (c1, c2) = window_controls(Point(0, 0), Point(3, 0), Point(6, 0), Point(9, 0));
    // scaled by 45: one third of the spacing past p1 and before p2
    assert_eq!(c1, Vector(45 * 4, 0));
    assert_eq!(c2, Vector(45 * 5, 0));
}

#[test]
fn collinear_diagonal_window_controls_lie_on_the_line() {
    let (c1, c2) = window_controls(Point(-6, 3), Point(0, 0), Point(6, -3), Point(12, -6));
    assert_eq!(c1, Vector(45 * 2, 45 * -1));
    assert_eq!(c2, Vector(45 * 4, 45 * -2));
}

#[test]
fn square_corner_window_controls() {
    let (c1, c2) = window_controls(Point(0, 0), Point(10, 0), Point(10, 10), Point(0, 10));
    assert_eq!(c1, Vector(550, 90));
    assert_eq!(c2, Vector(550, 360));
}

#[test]
fn window_controls_solve_the_spline_system() {
    let (p0, p1, p2, p3) = (Point(1, -4), Point(7, 2), Point(3, 9), Point(-5, 11));
    let (c1, c2) = window_controls(p0, p1, p2, p3);
    // offsets from the inner points, scaled by 45
    let d1 = (c1.0 - 45 * p1.0 as i64, c1.1 - 45 * p1.1 as i64);
    let d2 = (45 * p2.0 as i64 - c2.0, 45 * p2.1 as i64 - c2.1);
    let d0 = (15 * (p1.0 - p0.0) as i64, 15 * (p1.1 - p0.1) as i64);
    let d3 = (15 * (p3.0 - p2.0) as i64, 15 * (p3.1 - p2.1) as i64);
    assert_eq!(d0.0 + 4 * d1.0 + d2.0, 45 * (p2.0 - p0.0) as i64);
    assert_eq!(d0.1 + 4 * d1.1 + d2.1, 45 * (p2.1 - p0.1) as i64);
    assert_eq!(d1.0 + 4 * d2.0 + d3.0, 45 * (p3.0 - p1.0) as i64);
    assert_eq!(d1.1 + 4 * d2.1 + d3.1, 45 * (p3.1 - p1.1) as i64);
}

#[test]
fn spline_needs_four_points() {
    assert!(calc_whole_spline(&vec![]).is_empty());
    assert!(calc_whole_spline(&vec![Point(0, 0), Point(1, 1), Point(2, 2)]).is_empty());
    assert_eq!(
        calc_whole_spline(&vec![Point(0, 0), Point(1, 1), Point(2, 2), Point(3, 3)]).len(),
        1
    );
}

#[test]
fn spline_has_one_pair_per_window() {
    let points = vec![
        Point(0, 0),
        Point(10, 0),
        Point(10, 10),
        Point(0, 10),
        Point(5, 15),
        Point(0, 20),
    ];
    let controls = calc_whole_spline(&points);
    assert_eq!(controls.len(), 3);
    for k in 0..3 {
        assert_eq!(
            controls[k],
            window_controls(points[k], points[k + 1], points[k + 2], points[k + 3])
        );
    }
}

#[test]
fn spline_handles_extreme_coordinates() {
    let points = vec![
        Point(i32::MIN, i32::MAX),
        Point(i32::MAX, i32::MIN),
        Point(i32::MIN, i32::MAX),
        Point(i32::MAX, i32::MIN),
    ];
    let (c1, _) = calc_whole_spline(&points)[0];
    let (a, b, c, d) = (i32::MIN as i64, i32::MAX as i64, i32::MIN as i64, i32::MAX as i64);
    assert_eq!(c1.0, 45 * b + 11 * c - 8 * a - b - 2 * d);
}

#[test]
fn vector_arithmetic() {
    let v = Point(7, -2).minus(Point(3, 5));
    assert_eq!(v, Vector(4, -7));
    assert_eq!(v.plus(Vector(1, 1)), Vector(5, -6));
    assert_eq!(v.minus(Vector(1, 1)), Vector(3, -8));
    assert_eq!(v.scaled(3), Vector(12, -21));
    assert_eq!(v.negated(), Vector(-4, 7));
    assert_eq!(Point(-3, 4).scaled(45), Vector(-135, 180));
}
