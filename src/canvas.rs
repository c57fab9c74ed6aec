use vstd::prelude::*;
use crate::colors::Color;
use crate::point::{Point, Vector};

verus! {

/// Bézier control points are exact in units of `1 / CONTROL_SCALE` pixel.
pub const CONTROL_SCALE: i64 = 45;

/// Which of the two head strokes of an arrow: the first is turned by minus
/// the head's half-angle from the shaft direction, the second by plus it.
#[derive(Clone, Copy, Debug, PartialEq, Eq, Structural)]
pub enum HeadRay {
    First,
    Second,
}

/// The far end of one arrow-head stroke.
///
/// Its position is `anchor + length * (cos t, sin t)` when `from_base`
/// holds and `anchor - length * (cos t, sin t)` otherwise, where
/// `t = atan2(shaft.1, shaft.0) -/+ half_angle`. The half-angle is given in
/// picoradians; the position is left to the canvas, which owns the
/// trigonometry.
#[derive(Clone, Copy, Debug, PartialEq, Eq, Structural)]
pub struct HeadTip {
    pub anchor: Point,
    pub shaft: Vector,
    pub length: i32,
    pub half_angle: i64,
    pub ray: HeadRay,
    pub from_base: bool,
}

/// One call on the canvas. Widths are in thousandths of a pixel.
#[derive(Clone, Copy, Debug, PartialEq, Eq, Structural)]
pub enum CanvasOp {
    SetSourceRgb(Color),
    SetLineWidth(u32),
    SetRoundCap,
    SetRoundJoin,
    MoveTo(Point),
    LineTo(Point),
    /// A cubic Bézier segment from the current point: two control points
    /// scaled by `CONTROL_SCALE`, then the end point.
    CurveTo(Vector, Vector, Point),
    /// An axis-aligned rectangle: its top-left corner, width and height.
    Rectangle(i32, i32, u32, u32),
    LineToHeadTip(HeadTip),
    Stroke,
}

} // verus!
