//! Drawing-tool engine of a screen-annotation overlay.
//!
//! Pointer events turn into shapes (freehand strokes, arrows, rectangles);
//! each shape renders itself as a plan of canvas operations that the
//! surrounding program replays on its drawing surface.

pub mod point;
pub mod colors;
pub mod canvas;
pub mod spline;
pub mod drawing_tool;
pub mod normal_line;
pub mod arrow;
pub mod normal_rectangle;
pub mod tool;
pub mod session;
pub mod config;
