use vstd::prelude::*;
use crate::canvas::{CanvasOp, HeadRay, HeadTip};
use crate::colors::Color;
use crate::point::{Point, Vector};
use crate::spline::spline_controls;

verus! {

/// The kind of shape that the next press starts.
#[derive(Clone, Copy, Debug, PartialEq, Eq, Structural)]
pub enum CurrentDrawingTool {
    NormalLine,
    NormalArrowHeadBase,
    NormalArrowHeadPointer,
    NormalRectangle,
}

/// Stroke width of a new shape, in thousandths of a pixel.
pub const DEFAULT_WIDTH: u32 = 2000;

/// Length of each arrow-head stroke, in pixels.
pub const ARROW_LENGTH: i32 = 20;

/// Angle between the shaft and each arrow-head stroke, in picoradians.
pub const ARROW_HALF_ANGLE: i64 = 580_678_408_280;

/// The geometry recorded so far by a shape.
pub enum Shape {
    /// A freehand stroke: every recorded point, in order.
    Stroke { points: Seq<Point>, started: bool },
    /// A straight arrow with its head at the start (`head_at_base`) or at
    /// the end of the shaft.
    Arrow { start: Option<Point>, end: Option<Point>, head_at_base: bool },
    /// An axis-aligned rectangle with opposite corners `start` and `end`.
    Rectangle { start: Option<Point>, end: Option<Point> },
}

/// What a shape holds: its geometry, whether it is finished, and its style.
pub struct ToolView {
    pub shape: Shape,
    pub finished: bool,
    pub color: Color,
    pub width: u32,
}

/// The smaller of two coordinates.
pub open spec fn min_coord(a: i32, b: i32) -> i32 {
    if a <= b { a } else { b }
}

/// The distance between two coordinates.
pub open spec fn coord_distance(a: i32, b: i32) -> u32 {
    if a <= b { (b - a) as u32 } else { (a - b) as u32 }
}

/// The canvas calls that stroke the curve through `points`: a straight
/// first and last segment, and one cubic segment between each pair of
/// inner neighbours. Nothing below four points.
pub open spec fn stroke_plan(points: Seq<Point>, color: Color, width: u32) -> Seq<CanvasOp> {
    if points.len() < 4 {
        Seq::empty()
    } else {
        seq![
            CanvasOp::SetSourceRgb(color),
            CanvasOp::SetLineWidth(width),
            CanvasOp::SetRoundCap,
            CanvasOp::SetRoundJoin,
            CanvasOp::MoveTo(points[0]),
            CanvasOp::LineTo(points[1]),
        ] + curve_ops(points) + seq![CanvasOp::LineTo(points.last()), CanvasOp::Stroke]
    }
}

/// One cubic segment for each window of four consecutive points, from its
/// second point to its third.
pub open spec fn curve_ops(points: Seq<Point>) -> Seq<CanvasOp> {
    spline_controls(points).map(
        |k: int, c: (Vector, Vector)| CanvasOp::CurveTo(c.0, c.1, points[k + 2]),
    )
}

/// One arrow-head stroke.
pub open spec fn head_tip(start: Point, end: Point, head_at_base: bool, ray: HeadRay) -> HeadTip {
    HeadTip {
        anchor: if head_at_base { start } else { end },
        shaft: Vector((end.0 - start.0) as i64, (end.1 - start.1) as i64),
        length: ARROW_LENGTH,
        half_angle: ARROW_HALF_ANGLE,
        ray: ray,
        from_base: head_at_base,
    }
}

/// The canvas calls of an arrow: the shaft, then both head strokes from the
/// anchor. Nothing until both ends are known.
pub open spec fn arrow_plan(
    start: Option<Point>,
    end: Option<Point>,
    head_at_base: bool,
    color: Color,
    width: u32,
) -> Seq<CanvasOp> {
    if start is Some && end is Some {
        let s = start->0;
        let e = end->0;
        let anchor = if head_at_base { s } else { e };
        seq![
            CanvasOp::SetSourceRgb(color),
            CanvasOp::SetRoundCap,
            CanvasOp::SetRoundJoin,
            CanvasOp::SetLineWidth(width),
            CanvasOp::MoveTo(s),
            CanvasOp::LineTo(e),
            CanvasOp::MoveTo(anchor),
            CanvasOp::LineToHeadTip(head_tip(s, e, head_at_base, HeadRay::First)),
            CanvasOp::MoveTo(anchor),
            CanvasOp::LineToHeadTip(head_tip(s, e, head_at_base, HeadRay::Second)),
            CanvasOp::Stroke,
        ]
    } else {
        Seq::empty()
    }
}

/// The rectangle with opposite corners `s` and `e`, as the canvas takes it.
pub open spec fn rectangle_op(s: Point, e: Point) -> CanvasOp {
    CanvasOp::Rectangle(
        min_coord(s.0, e.0),
        min_coord(s.1, e.1),
        coord_distance(s.0, e.0),
        coord_distance(s.1, e.1),
    )
}

/// The canvas calls of a rectangle; nothing until both corners are known.
pub open spec fn rectangle_plan(
    start: Option<Point>,
    end: Option<Point>,
    color: Color,
    width: u32,
) -> Seq<CanvasOp> {
    if start is Some && end is Some {
        seq![
            CanvasOp::SetSourceRgb(color),
            CanvasOp::SetRoundCap,
            CanvasOp::SetRoundJoin,
            CanvasOp::SetLineWidth(width),
            rectangle_op(start->0, end->0),
            CanvasOp::Stroke,
        ]
    } else {
        Seq::empty()
    }
}

impl ToolView {
    /// A new shape of the given kind, before any event, in the default style.
    pub open spec fn fresh(kind: CurrentDrawingTool) -> ToolView {
        ToolView {
            shape: match kind {
                CurrentDrawingTool::NormalLine => Shape::Stroke { points: Seq::empty(), started: false },
                CurrentDrawingTool::NormalArrowHeadBase => Shape::Arrow {
                    start: None,
                    end: None,
                    head_at_base: true,
                },
                CurrentDrawingTool::NormalArrowHeadPointer => Shape::Arrow {
                    start: None,
                    end: None,
                    head_at_base: false,
                },
                CurrentDrawingTool::NormalRectangle => Shape::Rectangle { start: None, end: None },
            },
            finished: false,
            color: Color(850, 100, 50),
            width: DEFAULT_WIDTH,
        }
    }

    /// The shape has received its press.
    pub open spec fn started(self) -> bool {
        match self.shape {
            Shape::Stroke { started, .. } => started,
            Shape::Arrow { start, .. } => start is Some,
            Shape::Rectangle { start, .. } => start is Some,
        }
    }

    /// Started and not yet finished: the shape still follows the pointer.
    pub open spec fn is_active(self) -> bool {
        self.started() && !self.finished
    }

    /// The shape after a press at `p`: a stroke starts with `p` as its first
    /// point; an arrow or a rectangle takes `p` as its start.
    pub open spec fn pressed(self, p: Point) -> ToolView {
        ToolView {
            shape: match self.shape {
                Shape::Stroke { points, .. } => Shape::Stroke { points: points.push(p), started: true },
                Shape::Arrow { end, head_at_base, .. } => Shape::Arrow {
                    start: Some(p),
                    end: end,
                    head_at_base: head_at_base,
                },
                Shape::Rectangle { end, .. } => Shape::Rectangle { start: Some(p), end: end },
            },
            ..self
        }
    }

    /// The geometry with `p` recorded as its latest point: appended to a
    /// started stroke, taken as the end of an arrow or a rectangle.
    pub open spec fn extended(self, p: Point) -> ToolView {
        ToolView {
            shape: match self.shape {
                Shape::Stroke { points, started } => Shape::Stroke {
                    points: if started { points.push(p) } else { points },
                    started: started,
                },
                Shape::Arrow { start, head_at_base, .. } => Shape::Arrow {
                    start: start,
                    end: Some(p),
                    head_at_base: head_at_base,
                },
                Shape::Rectangle { start, .. } => Shape::Rectangle { start: start, end: Some(p) },
            },
            ..self
        }
    }

    /// The shape after the pointer moved to `p`: recorded only while active.
    pub open spec fn dragged(self, p: Point) -> ToolView {
        if self.is_active() {
            self.extended(p)
        } else {
            self
        }
    }

    /// The shape after a release at `p`: the point is recorded and the shape
    /// is finished; a finished shape stays as it is.
    pub open spec fn released(self, p: Point) -> ToolView {
        if self.finished {
            self
        } else {
            ToolView { finished: true, ..self.extended(p) }
        }
    }

    pub open spec fn with_color(self, color: Color) -> ToolView {
        ToolView { color: color, ..self }
    }

    pub open spec fn with_width(self, width: u32) -> ToolView {
        ToolView { width: width, ..self }
    }

    /// The canvas calls that draw the shape as it stands.
    pub open spec fn plan(self) -> Seq<CanvasOp> {
        match self.shape {
            Shape::Stroke { points, .. } => stroke_plan(points, self.color, self.width),
            Shape::Arrow { start, end, head_at_base } => arrow_plan(
                start,
                end,
                head_at_base,
                self.color,
                self.width,
            ),
            Shape::Rectangle { start, end } => rectangle_plan(start, end, self.color, self.width),
        }
    }
}

/// The number of cubic segments among `ops`.
pub open spec fn curve_count(ops: Seq<CanvasOp>) -> nat
    decreases ops.len(),
{
    if ops.len() == 0 {
        0
    } else {
        curve_count(ops.drop_last()) + if ops.last() is CurveTo { 1nat } else { 0nat }
    }
}

proof fn lemma_curve_count_concat(a: Seq<CanvasOp>, b: Seq<CanvasOp>)
    ensures
        curve_count(a + b) == curve_count(a) + curve_count(b),
    decreases b.len(),
{
    if b.len() == 0 {
        assert(a + b =~= a);
    } else {
        assert((a + b).drop_last() =~= a + b.drop_last());
        lemma_curve_count_concat(a, b.drop_last());
    }
}

proof fn lemma_curve_count_all_curves(ops: Seq<CanvasOp>)
    requires
        forall|i: int| 0 <= i < ops.len() ==> #[trigger] ops[i] is CurveTo,
    ensures
        curve_count(ops) == ops.len(),
    decreases ops.len(),
{
    if ops.len() > 0 {
        lemma_curve_count_all_curves(ops.drop_last());
    }
}

/// A stroke of `n` points draws no cubic segment below four points, and
/// `n - 3` of them from four points on: exactly one for four points.
pub proof fn lemma_stroke_curve_count(points: Seq<Point>, color: Color, width: u32)
    ensures
        curve_count(stroke_plan(points, color, width)) == if points.len() >= 4 {
            points.len() - 3
        } else {
            0
        },
{
    if points.len() >= 4 {
        let head = seq![
            CanvasOp::SetSourceRgb(color),
            CanvasOp::SetLineWidth(width),
            CanvasOp::SetRoundCap,
            CanvasOp::SetRoundJoin,
            CanvasOp::MoveTo(points[0]),
            CanvasOp::LineTo(points[1]),
        ];
        let tail = seq![CanvasOp::LineTo(points.last()), CanvasOp::Stroke];
        let curves = curve_ops(points);
        lemma_curve_count_concat(head + curves, tail);
        lemma_curve_count_concat(head, curves);
        lemma_curve_count_all_curves(curves);
        reveal_with_fuel(curve_count, 7);
        assert(curve_count(head) == 0);
        assert(curve_count(tail) == 0);
    }
}

/// A rectangle does not depend on which corners the press and the release
/// marked: swapping them, or taking the other diagonal, gives the same one.
pub proof fn lemma_rectangle_corner_order(s: Point, e: Point)
    ensures
        rectangle_op(s, e) == rectangle_op(e, s),
        rectangle_op(s, e) == rectangle_op(Point(s.0, e.1), Point(e.0, s.1)),
{
}

/// Once both ends of an arrow are known, its two head strokes start at the
/// same anchor (the start for a head at the base, the end otherwise) and
/// share shaft, length and half-angle; they differ only in the side to
/// which they turn.
pub proof fn lemma_arrow_heads_mirror(start: Point, end: Point, head_at_base: bool, color: Color, width: u32)
    ensures ({
        let plan = arrow_plan(Some(start), Some(end), head_at_base, color, width);
        let first = head_tip(start, end, head_at_base, HeadRay::First);
        let second = head_tip(start, end, head_at_base, HeadRay::Second);
        &&& plan.len() == 11
        &&& plan[6] == CanvasOp::MoveTo(first.anchor)
        &&& plan[7] == CanvasOp::LineToHeadTip(first)
        &&& plan[8] == CanvasOp::MoveTo(second.anchor)
        &&& plan[9] == CanvasOp::LineToHeadTip(second)
        &&& first == (HeadTip { ray: HeadRay::First, ..second })
        &&& first.anchor == if head_at_base { start } else { end }
        &&& first.length == ARROW_LENGTH
        &&& first.half_angle == ARROW_HALF_ANGLE
    }),
{
}

/// A finished shape is final: drags and releases leave it as it is.
pub proof fn lemma_finished_is_final(v: ToolView, p: Point)
    requires
        v.finished,
    ensures
        v.dragged(p) == v,
        v.released(p) == v,
        !v.is_active(),
{
}

/// A release finishes the shape, and a shape that was never finished
/// records the release point; nothing undoes it.
pub proof fn lemma_release_finishes(v: ToolView, p: Point)
    ensures
        v.released(p).finished,
        !v.released(p).is_active(),
        !v.finished ==> v.released(p) == (ToolView { finished: true, ..v.extended(p) }),
{
}

/// A fresh shape pressed once is active, in the style it was given.
pub proof fn lemma_pressed_is_active(kind: CurrentDrawingTool, p: Point, color: Color, width: u32)
    ensures
        ToolView::fresh(kind).pressed(p).with_width(width).with_color(color).is_active(),
        ToolView::fresh(kind).pressed(p).with_width(width).with_color(color).color == color,
        ToolView::fresh(kind).pressed(p).with_width(width).with_color(color).width == width,
{
}

/// What every shape offers: the press / drag / release lifecycle, its
/// style, and a plan of canvas calls that draws it.
pub trait DrawingTool: Sized {
    /// The shape's state.
    spec fn model(&self) -> ToolView;

    /// The pointer was released at `point`.
    fn release_mouse(&mut self, point: Point)
        ensures
            final(self).model() == old(self).model().released(point),
    ;

    /// The pointer was pressed at `point`; a shape is pressed once.
    fn press_mouse(&mut self, point: Point)
        requires
            !old(self).model().started(),
            !old(self).model().finished,
        ensures
            final(self).model() == old(self).model().pressed(point),
    ;

    /// The pointer moved to `point`.
    fn motion_notify(&mut self, point: Point)
        ensures
            final(self).model() == old(self).model().dragged(point),
    ;

    /// The canvas calls that draw the shape.
    fn draw(&self) -> (r: Vec<CanvasOp>)
        ensures
            r@ == self.model().plan(),
    ;

    /// Sets the stroke width, in thousandths of a pixel.
    fn set_line_width(&mut self, width: u32)
        ensures
            final(self).model() == old(self).model().with_width(width),
    ;

    fn set_color(&mut self, color: Color)
        ensures
            final(self).model() == old(self).model().with_color(color),
    ;

    /// Whether the shape still follows the pointer.
    fn active(&mut self) -> (r: bool)
        ensures
            r == old(self).model().is_active(),
            final(self).model() == old(self).model(),
    ;
}

} // verus!
