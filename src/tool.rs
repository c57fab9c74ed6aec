use vstd::prelude::*;
use crate::arrow::NormalArrow;
use crate::canvas::CanvasOp;
use crate::colors::Color;
use crate::drawing_tool::{CurrentDrawingTool, DrawingTool, ToolView};
use crate::normal_line::NormalLine;
use crate::normal_rectangle::NormalRectangle;
use crate::point::Point;

verus! {

/// One shape of any kind.
pub enum Tool {
    Line(NormalLine),
    Arrow(NormalArrow),
    Rectangle(NormalRectangle),
}

impl Tool {
    /// A new shape of the given kind, in the default style.
    pub fn new(kind: CurrentDrawingTool) -> (r: Tool)
        ensures
            r.model() == ToolView::fresh(kind),
    {
        match kind {
            CurrentDrawingTool::NormalLine => Tool::Line(NormalLine::new()),
            CurrentDrawingTool::NormalArrowHeadBase => Tool::Arrow(NormalArrow::new(true)),
            CurrentDrawingTool::NormalArrowHeadPointer => Tool::Arrow(NormalArrow::new(false)),
            CurrentDrawingTool::NormalRectangle => Tool::Rectangle(NormalRectangle::new()),
        }
    }
}

impl DrawingTool for Tool {
    open spec fn model(&self) -> ToolView {
        match self {
            Tool::Line(t) => t.model(),
            Tool::Arrow(t) => t.model(),
            Tool::Rectangle(t) => t.model(),
        }
    }

    fn release_mouse(&mut self, point: Point) {
        match self {
            Tool::Line(t) => t.release_mouse(point),
            Tool::Arrow(t) => t.release_mouse(point),
            Tool::Rectangle(t) => t.release_mouse(point),
        }
    }

    fn press_mouse(&mut self, point: Point) {
        match self {
            Tool::Line(t) => t.press_mouse(point),
            Tool::Arrow(t) => t.press_mouse(point),
            Tool::Rectangle(t) => t.press_mouse(point),
        }
    }

    fn motion_notify(&mut self, point: Point) {
        match self {
            Tool::Line(t) => t.motion_notify(point),
            Tool::Arrow(t) => t.motion_notify(point),
            Tool::Rectangle(t) => t.motion_notify(point),
        }
    }

    fn draw(&self) -> (r: Vec<CanvasOp>) {
        match self {
            Tool::Line(t) => t.draw(),
            Tool::Arrow(t) => t.draw(),
            Tool::Rectangle(t) => t.draw(),
        }
    }

    fn set_line_width(&mut self, width: u32) {
        match self {
            Tool::Line(t) => t.set_line_width(width),
            Tool::Arrow(t) => t.set_line_width(width),
            Tool::Rectangle(t) => t.set_line_width(width),
        }
    }

    fn set_color(&mut self, color: Color) {
        match self {
            Tool::Line(t) => t.set_color(color),
            Tool::Arrow(t) => t.set_color(color),
            Tool::Rectangle(t) => t.set_color(color),
        }
    }

    fn active(&mut self) -> (r: bool) {
        match self {
            Tool::Line(t) => t.active(),
            Tool::Arrow(t) => t.active(),
            Tool::Rectangle(t) => t.active(),
        }
    }
}

} // verus!
