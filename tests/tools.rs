use chicolli::arrow::NormalArrow;
use chicolli::canvas::{CanvasOp, HeadRay, HeadTip};
use chicolli::colors::Color;
use chicolli::drawing_tool::{DrawingTool, ARROW_HALF_ANGLE, ARROW_LENGTH, DEFAULT_WIDTH};
use chicolli::normal_line::NormalLine;
use chicolli::normal_rectangle::NormalRectangle;
use chicolli::point::{Point, Vector};
use chicolli::spline::window_controls;

fn curves(ops: &[CanvasOp]) -> usize {
    ops.iter().filter(|op| matches!(op, CanvasOp::CurveTo(..))).count()
}

fn line_with(points: &[Point]) -> NormalLine {
    let mut line = NormalLine::new();
    line.press_mouse(points[0]);
    for p in &points[1..] {
        line.motion_notify(*p);
    }
    line
}

#[test]
fn stroke_with_three_points_draws_no_curve() {
    let line = line_with(&[Point(0, 0), Point(10, 0), Point(10, 10)]);
    let ops = line.draw();
    assert_eq!(curves(&ops), 0);
    assert!(ops.is_empty());
}

#[test]
fn stroke_with_four_points_draws_one_curve() {
    let pts = [Point(0, 0), Point(10, 0), Point(10, 10), Point(0, 10)];
    let line = line_with(&pts);
    let ops = line.draw();
    assert_eq!(curves(&ops), 1);
    let (c1, c2) = window_controls(pts[0], pts[1], pts[2], pts[3]);
    assert_eq!(
        ops,
        vec![
            CanvasOp::SetSourceRgb(Color::red()),
            CanvasOp::SetLineWidth(DEFAULT_WIDTH),
            CanvasOp::SetRoundCap,
            CanvasOp::SetRoundJoin,
            CanvasOp::MoveTo(pts[0]),
            CanvasOp::LineTo(pts[1]),
            CanvasOp::CurveTo(c1, c2, pts[2]),
            CanvasOp::LineTo(pts[3]),
            CanvasOp::Stroke,
        ]
    );
}

#[test]
fn empty_stroke_draws_nothing() {
    let mut line = NormalLine::new();
    assert!(line.draw().is_empty());
    assert!(!line.active());
    assert!(line.points().is_empty());
}

#[test]
fn freehand_scenario() {
    let mut line = NormalLine::new();
    line.press_mouse(Point(0, 0));
    assert!(line.active());
    line.motion_notify(Point(10, 0));
    line.motion_notify(Point(10, 10));
    line.motion_notify(Point(0, 10));
    line.motion_notify(Point(5, 15));
    assert!(line.active());
    assert_eq!(line.points().len(), 5);
    let before = line.draw();
    assert!(curves(&before) >= 1);
    assert_eq!(curves(&before), 2);
    line.release_mouse(Point(0, 20));
    assert!(!line.active());
    assert_eq!(
        line.points(),
        &vec![
            Point(0, 0),
            Point(10, 0),
            Point(10, 10),
            Point(0, 10),
            Point(5, 15),
            Point(0, 20)
        ]
    );
    assert_eq!(curves(&line.draw()), 3);
}

#[test]
fn drags_after_release_are_ignored() {
    let mut line = line_with(&[Point(0, 0), Point(1, 1), Point(2, 2), Point(3, 3)]);
    line.release_mouse(Point(4, 4));
    let drawn = line.draw();
    line.motion_notify(Point(9, 9));
    line.release_mouse(Point(8, 8));
    assert_eq!(line.points().len(), 5);
    assert_eq!(line.draw(), drawn);
}

#[test]
fn drags_before_press_are_ignored() {
    let mut line = NormalLine::new();
    line.motion_notify(Point(1, 1));
    assert!(line.points().is_empty());
    let mut rect = NormalRectangle::new();
    rect.motion_notify(Point(1, 1));
    assert!(rect.draw().is_empty());
}

#[test]
fn render_twice_gives_the_same_calls() {
    let mut line = line_with(&[Point(0, 0), Point(10, 0), Point(10, 10), Point(0, 10), Point(5, 15)]);
    assert_eq!(line.draw(), line.draw());
    let mut arrow = NormalArrow::new(false);
    arrow.press_mouse(Point(0, 0));
    arrow.motion_notify(Point(100, 0));
    assert_eq!(arrow.draw(), arrow.draw());
    let mut rect = NormalRectangle::new();
    rect.press_mouse(Point(50, 50));
    rect.motion_notify(Point(10, 10));
    assert_eq!(rect.draw(), rect.draw());
    line.release_mouse(Point(0, 20));
    assert_eq!(line.draw(), line.draw());
}

fn head_ops(ops: &[CanvasOp]) -> Vec<HeadTip> {
    ops.iter()
        .filter_map(|op| match op {
            CanvasOp::LineToHeadTip(t) => Some(*t),
            _ => None,
        })
        .collect()
}

#[test]
fn arrow_draws_nothing_before_a_drag() {
    let mut arrow = NormalArrow::new(true);
    assert!(arrow.draw().is_empty());
    arrow.press_mouse(Point(0, 0));
    assert!(arrow.active());
    assert!(arrow.draw().is_empty());
}

#[test]
fn arrow_head_at_pointer() {
    let mut arrow = NormalArrow::new(false);
    arrow.press_mouse(Point(0, 0));
    arrow.motion_notify(Point(100, 0));
    let ops = arrow.draw();
    let first = HeadTip {
        anchor: Point(100, 0),
        shaft: Vector(100, 0),
        length: ARROW_LENGTH,
        half_angle: ARROW_HALF_ANGLE,
        ray: HeadRay::First,
        from_base: false,
    };
    let second = HeadTip { ray: HeadRay::Second, ..first };
    assert_eq!(
        ops,
        vec![
            CanvasOp::SetSourceRgb(Color::red()),
            CanvasOp::SetRoundCap,
            CanvasOp::SetRoundJoin,
            CanvasOp::SetLineWidth(DEFAULT_WIDTH),
            CanvasOp::MoveTo(Point(0, 0)),
            CanvasOp::LineTo(Point(100, 0)),
            CanvasOp::MoveTo(Point(100, 0)),
            CanvasOp::LineToHeadTip(first),
            CanvasOp::MoveTo(Point(100, 0)),
            CanvasOp::LineToHeadTip(second),
            CanvasOp::Stroke,
        ]
    );
}

#[test]
fn arrow_head_at_base() {
    let mut arrow = NormalArrow::new(true);
    arrow.press_mouse(Point(0, 0));
    arrow.motion_notify(Point(40, 0));
    arrow.release_mouse(Point(100, 0));
    assert!(!arrow.active());
    arrow.motion_notify(Point(7, 7));
    let heads = head_ops(&arrow.draw());
    assert_eq!(heads.len(), 2);
    for h in &heads {
        assert_eq!(h.anchor, Point(0, 0));
        assert_eq!(h.shaft, Vector(100, 0));
        assert_eq!(h.length, 20);
        assert_eq!(h.half_angle, 580_678_408_280);
        assert!(h.from_base);
    }
    assert_eq!(heads[0].ray, HeadRay::First);
    assert_eq!(heads[1].ray, HeadRay::Second);
}

#[test]
fn rectangle_is_normalized() {
    let mut rect = NormalRectangle::new();
    rect.press_mouse(Point(50, 50));
    rect.release_mouse(Point(10, 10));
    assert_eq!(
        rect.draw(),
        vec![
            CanvasOp::SetSourceRgb(Color::red()),
            CanvasOp::SetRoundCap,
            CanvasOp::SetRoundJoin,
            CanvasOp::SetLineWidth(DEFAULT_WIDTH),
            CanvasOp::Rectangle(10, 10, 40, 40),
            CanvasOp::Stroke,
        ]
    );
}

fn rectangle_of(start: Point, end: Point) -> CanvasOp {
    let mut rect = NormalRectangle::new();
    rect.press_mouse(start);
    rect.motion_notify(end);
    rect.draw()[4]
}

#[test]
fn rectangle_from_any_corner() {
    let expected = CanvasOp::Rectangle(10, 10, 40, 40);
    assert_eq!(rectangle_of(Point(10, 10), Point(50, 50)), expected);
    assert_eq!(rectangle_of(Point(50, 10), Point(10, 50)), expected);
    assert_eq!(rectangle_of(Point(10, 50), Point(50, 10)), expected);
    assert_eq!(rectangle_of(Point(50, 50), Point(10, 10)), expected);
}

#[test]
fn rectangle_degenerate_and_extreme() {
    assert_eq!(rectangle_of(Point(5, 5), Point(5, 5)), CanvasOp::Rectangle(5, 5, 0, 0));
    assert_eq!(
        rectangle_of(Point(i32::MAX, i32::MIN), Point(i32::MIN, i32::MAX)),
        CanvasOp::Rectangle(i32::MIN, i32::MIN, u32::MAX, u32::MAX)
    );
}

#[test]
fn style_setters_apply() {
    let mut rect = NormalRectangle::new();
    rect.set_color(Color::blue());
    rect.set_line_width(3500);
    rect.press_mouse(Point(0, 0));
    rect.motion_notify(Point(1, 2));
    let ops = rect.draw();
    assert_eq!(ops[0], CanvasOp::SetSourceRgb(Color(0, 280, 730)));
    assert_eq!(ops[3], CanvasOp::SetLineWidth(3500));
}

#[test]
fn preset_colors() {
    assert_eq!(Color::red(), Color(850, 100, 50));
    assert_eq!(Color::green(), Color(200, 930, 400));
    assert_eq!(Color::blue(), Color(0, 280, 730));
}
