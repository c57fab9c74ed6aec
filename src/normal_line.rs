use vstd::prelude::*;
use crate::canvas::CanvasOp;
use crate::colors::Color;
use crate::drawing_tool::{curve_ops, stroke_plan, CurrentDrawingTool, DrawingTool, Shape, ToolView, DEFAULT_WIDTH};
use crate::point::Point;
use crate::spline::{calc_whole_spline, spline_controls};

verus! {

/// A freehand stroke: every point the pointer passed while it was active.
pub struct NormalLine {
    points: Vec<Point>,
    finished: bool,
    started: bool,
    line_width: u32,
    color: Color,
}

impl NormalLine {
    pub fn new() -> (r: NormalLine)
        ensures
            r.model() == ToolView::fresh(CurrentDrawingTool::NormalLine),
    {
        NormalLine {
            points: Vec::new(),
            finished: false,
            started: false,
            line_width: DEFAULT_WIDTH,
            color: Color::red(),
        }
    }

    /// The recorded points, in order.
    pub fn points(&self) -> (r: &Vec<Point>)
        ensures
            self.model().shape == (Shape::Stroke { points: r@, started: self.model().started() }),
    {
        &self.points
    }
}

impl DrawingTool for NormalLine {
    closed spec fn model(&self) -> ToolView {
        ToolView {
            shape: Shape::Stroke { points: self.points@, started: self.started },
            finished: self.finished,
            color: self.color,
            width: self.line_width,
        }
    }

    fn release_mouse(&mut self, point: Point) {
        if !self.finished {
            if self.started {
                self.points.push(point);
            }
            self.finished = true;
        }
    }

    fn press_mouse(&mut self, point: Point) {
        self.points.push(point);
        self.started = true;
    }

    fn motion_notify(&mut self, point: Point) {
        if self.active() {
            self.points.push(point);
        }
    }

    fn draw(&self) -> (r: Vec<CanvasOp>) {
        let n = self.points.len();
        let mut ops: Vec<CanvasOp> = Vec::new();
        if n < 4 {
            return ops;
        }
        let controls = calc_whole_spline(&self.points);
        ops.push(CanvasOp::SetSourceRgb(self.color));
        ops.push(CanvasOp::SetLineWidth(self.line_width));
        ops.push(CanvasOp::SetRoundCap);
        ops.push(CanvasOp::SetRoundJoin);
        ops.push(CanvasOp::MoveTo(self.points[0]));
        ops.push(CanvasOp::LineTo(self.points[1]));
        let ghost head = ops@;
        let mut k: usize = 0;
        while k < controls.len()
            invariant
                n == self.points@.len(),
                n >= 4,
                controls@ == spline_controls(self.points@),
                k <= controls@.len(),
                ops@ =~= head + curve_ops(self.points@).take(k as int),
            decreases controls@.len() - k,
        {
            let c = controls[k];
            ops.push(CanvasOp::CurveTo(c.0, c.1, self.points[k + 2]));
            k = k + 1;
        }
        ops.push(CanvasOp::LineTo(self.points[n - 1]));
        ops.push(CanvasOp::Stroke);
        assert(curve_ops(self.points@).take(k as int) =~= curve_ops(self.points@));
        assert(ops@ =~= stroke_plan(self.points@, self.color, self.line_width));
        ops
    }

    fn set_line_width(&mut self, width: u32) {
        self.line_width = width;
    }

    fn set_color(&mut self, color: Color) {
        self.color = color;
    }

    fn active(&mut self) -> (r: bool) {
        self.started && !self.finished
    }
}

} // verus!
