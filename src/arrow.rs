use vstd::prelude::*;
use crate::canvas::{CanvasOp, HeadRay, HeadTip};
use crate::colors::Color;
use crate::drawing_tool::{
    arrow_plan, CurrentDrawingTool, DrawingTool, Shape, ToolView, ARROW_HALF_ANGLE,
    ARROW_LENGTH, DEFAULT_WIDTH,
};
use crate::point::Point;

verus! {

/// A straight arrow from the press point to the latest pointer position,
/// with its head at the pointer or, when `direction_head_base` holds, at
/// the press point.
pub struct NormalArrow {
    start: Option<Point>,
    end: Option<Point>,
    arrow_width: u32,
    finished: bool,
    direction_head_base: bool,
    color: Color,
}

impl NormalArrow {
    /// A new arrow; `direction` puts the head at the base.
    pub fn new(direction: bool) -> (r: NormalArrow)
        ensures
            r.model() == ToolView::fresh(
                if direction {
                    CurrentDrawingTool::NormalArrowHeadBase
                } else {
                    CurrentDrawingTool::NormalArrowHeadPointer
                },
            ),
    {
        NormalArrow {
            start: None,
            end: None,
            arrow_width: DEFAULT_WIDTH,
            finished: false,
            direction_head_base: direction,
            color: Color::red(),
        }
    }
}

impl DrawingTool for NormalArrow {
    closed spec fn model(&self) -> ToolView {
        ToolView {
            shape: Shape::Arrow {
                start: self.start,
                end: self.end,
                head_at_base: self.direction_head_base,
            },
            finished: self.finished,
            color: self.color,
            width: self.arrow_width,
        }
    }

    fn release_mouse(&mut self, point: Point) {
        if !self.finished {
            self.end = Some(point);
            self.finished = true;
        }
    }

    fn press_mouse(&mut self, point: Point) {
        self.start = Some(point);
    }

    fn motion_notify(&mut self, point: Point) {
        if self.active() {
            self.end = Some(point);
        }
    }

    fn draw(&self) -> (r: Vec<CanvasOp>) {
        let mut ops: Vec<CanvasOp> = Vec::new();
        match (self.start, self.end) {
            (Some(start), Some(end)) => {
                let anchor = if self.direction_head_base { start } else { end };
                let shaft = end.minus(start);
                ops.push(CanvasOp::SetSourceRgb(self.color));
                ops.push(CanvasOp::SetRoundCap);
                ops.push(CanvasOp::SetRoundJoin);
                ops.push(CanvasOp::SetLineWidth(self.arrow_width));
                ops.push(CanvasOp::MoveTo(start));
                ops.push(CanvasOp::LineTo(end));
                ops.push(CanvasOp::MoveTo(anchor));
                ops.push(
                    CanvasOp::LineToHeadTip(
                        HeadTip {
                            anchor: anchor,
                            shaft: shaft,
                            length: ARROW_LENGTH,
                            half_angle: ARROW_HALF_ANGLE,
                            ray: HeadRay::First,
                            from_base: self.direction_head_base,
                        },
                    ),
                );
                ops.push(CanvasOp::MoveTo(anchor));
                ops.push(
                    CanvasOp::LineToHeadTip(
                        HeadTip {
                            anchor: anchor,
                            shaft: shaft,
                            length: ARROW_LENGTH,
                            half_angle: ARROW_HALF_ANGLE,
                            ray: HeadRay::Second,
                            from_base: self.direction_head_base,
                        },
                    ),
                );
                ops.push(CanvasOp::Stroke);
                assert(ops@ =~= arrow_plan(
                    self.start,
                    self.end,
                    self.direction_head_base,
                    self.color,
                    self.arrow_width,
                ));
            },
            _ => {},
        }
        ops
    }

    fn set_line_width(&mut self, width: u32) {
        self.arrow_width = width;
    }

    fn set_color(&mut self, color: Color) {
        self.color = color;
    }

    fn active(&mut self) -> (r: bool) {
        self.start.is_some() && !self.finished
    }
}

} // verus!
