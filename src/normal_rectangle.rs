use vstd::prelude::*;
use crate::canvas::CanvasOp;
use crate::colors::Color;
use crate::drawing_tool::{
    rectangle_plan, CurrentDrawingTool, DrawingTool, Shape, ToolView, DEFAULT_WIDTH,
};
use crate::point::Point;

verus! {

/// An axis-aligned rectangle with opposite corners at the press point and
/// at the latest pointer position.
pub struct NormalRectangle {
    start: Option<Point>,
    end: Option<Point>,
    finished: bool,
    line_width: u32,
    color: Color,
}

impl NormalRectangle {
    pub fn new() -> (r: NormalRectangle)
        ensures
            r.model() == ToolView::fresh(CurrentDrawingTool::NormalRectangle),
    {
        NormalRectangle {
            start: None,
            end: None,
            finished: false,
            line_width: DEFAULT_WIDTH,
            color: Color::red(),
        }
    }
}

impl DrawingTool for NormalRectangle {
    closed spec fn model(&self) -> ToolView {
        ToolView {
            shape: Shape::Rectangle { start: self.start, end: self.end },
            finished: self.finished,
            color: self.color,
            width: self.line_width,
        }
    }

    fn release_mouse(&mut self, point: Point) {
        if !self.finished {
            self.end = Some(point);
            self.finished = true;
        }
    }

    fn press_mouse(&mut self, point: Point) {
        self.start = Some(point);
    }

    fn motion_notify(&mut self, point: Point) {
        if self.active() {
            self.end = Some(point);
        }
    }

    fn draw(&self) -> (r: Vec<CanvasOp>) {
        let mut ops: Vec<CanvasOp> = Vec::new();
        match (self.start, self.end) {
            (Some(start), Some(end)) => {
                let x = if start.0 <= end.0 { start.0 } else { end.0 };
                let y = if start.1 <= end.1 { start.1 } else { end.1 };
                let width = if start.0 <= end.0 {
                    (end.0 as i64 - start.0 as i64) as u32
                } else {
                    (start.0 as i64 - end.0 as i64) as u32
                };
                let height = if start.1 <= end.1 {
                    (end.1 as i64 - start.1 as i64) as u32
                } else {
                    (start.1 as i64 - end.1 as i64) as u32
                };
                ops.push(CanvasOp::SetSourceRgb(self.color));
                ops.push(CanvasOp::SetRoundCap);
                ops.push(CanvasOp::SetRoundJoin);
                ops.push(CanvasOp::SetLineWidth(self.line_width));
                ops.push(CanvasOp::Rectangle(x, y, width, height));
                ops.push(CanvasOp::Stroke);
                assert(ops@ =~= rectangle_plan(self.start, self.end, self.color, self.line_width));
            },
            _ => {},
        }
        ops
    }

    fn set_line_width(&mut self, width: u32) {
        self.line_width = width;
    }

    fn set_color(&mut self, color: Color) {
        self.color = color;
    }

    fn active(&mut self) -> (r: bool) {
        self.start.is_some() && !self.finished
    }
}

} // verus!
