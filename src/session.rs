use vstd::prelude::*;
use crate::canvas::CanvasOp;
use crate::colors::Color;
use crate::config::Configuration;
use crate::drawing_tool::{CurrentDrawingTool, DrawingTool, ToolView, DEFAULT_WIDTH};
use crate::point::Point;
use crate::tool::Tool;

verus! {

/// The shape that a press at `p` begins, in the given style.
pub open spec fn new_shape(kind: CurrentDrawingTool, p: Point, color: Color, width: u32) -> ToolView {
    ToolView::fresh(kind).pressed(p).with_width(width).with_color(color)
}

/// The collection after a new shape was begun: appended as the last one.
pub open spec fn begun(
    elements: Seq<ToolView>,
    kind: CurrentDrawingTool,
    p: Point,
    color: Color,
    width: u32,
) -> Seq<ToolView> {
    elements.push(new_shape(kind, p, color, width))
}

/// The collection after the pointer moved to `p`: only the last shape sees it.
pub open spec fn updated(elements: Seq<ToolView>, p: Point) -> Seq<ToolView> {
    if elements.len() == 0 {
        elements
    } else {
        elements.update(elements.len() - 1, elements.last().dragged(p))
    }
}

/// The collection after a release at `p`: only the last shape sees it.
pub open spec fn finished_last(elements: Seq<ToolView>, p: Point) -> Seq<ToolView> {
    if elements.len() == 0 {
        elements
    } else {
        elements.update(elements.len() - 1, elements.last().released(p))
    }
}

/// The collection after one new shape for each press, in order.
pub open spec fn begin_all(
    elements: Seq<ToolView>,
    presses: Seq<(CurrentDrawingTool, Point, Color, u32)>,
) -> Seq<ToolView>
    decreases presses.len(),
{
    if presses.len() == 0 {
        elements
    } else {
        let last = presses.last();
        begun(begin_all(elements, presses.drop_last()), last.0, last.1, last.2, last.3)
    }
}

/// The canvas calls that draw every shape, oldest first, so that later
/// shapes cover earlier ones.
pub open spec fn plans(elements: Seq<ToolView>) -> Seq<CanvasOp>
    decreases elements.len(),
{
    if elements.len() == 0 {
        Seq::empty()
    } else {
        plans(elements.drop_last()) + elements.last().plan()
    }
}

/// Width after a scroll by `delta` thousandths of a pixel: never below one
/// pixel, and capped at the largest width that can be held.
pub open spec fn scrolled_width(width: u32, delta: int) -> u32 {
    let w = width - delta;
    if w < 1000 {
        1000
    } else if w > u32::MAX {
        u32::MAX
    } else {
        w as u32
    }
}

/// Beginning shapes appends them after the earlier ones, which stay as
/// they were.
pub proof fn lemma_begin_all_appends(
    elements: Seq<ToolView>,
    presses: Seq<(CurrentDrawingTool, Point, Color, u32)>,
)
    ensures
        begin_all(elements, presses).len() == elements.len() + presses.len(),
        begin_all(elements, presses).take(elements.len() as int) == elements,
        forall|j: int|
            0 <= j < presses.len() ==> #[trigger] begin_all(elements, presses)[elements.len() + j]
                == new_shape(presses[j].0, presses[j].1, presses[j].2, presses[j].3),
    decreases presses.len(),
{
    if presses.len() == 0 {
        assert(elements.take(elements.len() as int) =~= elements);
    } else {
        let before = begin_all(elements, presses.drop_last());
        lemma_begin_all_appends(elements, presses.drop_last());
        assert(begin_all(elements, presses).take(elements.len() as int) =~= before.take(
            elements.len() as int,
        ));
        assert forall|j: int| 0 <= j < presses.len() implies #[trigger] begin_all(
            elements,
            presses,
        )[elements.len() + j] == new_shape(presses[j].0, presses[j].1, presses[j].2, presses[j].3) by {
            if j < presses.len() - 1 {
                assert(before[elements.len() + j] == new_shape(
                    presses.drop_last()[j].0,
                    presses.drop_last()[j].1,
                    presses.drop_last()[j].2,
                    presses.drop_last()[j].3,
                ));
            }
        }
    }
}

/// After one or more shapes are begun, a drag reaches the newest shape
/// alone: every earlier shape, older history included, is left exactly as
/// it was.
pub proof fn lemma_update_reaches_last_only(
    elements: Seq<ToolView>,
    presses: Seq<(CurrentDrawingTool, Point, Color, u32)>,
    p: Point,
)
    requires
        presses.len() > 0,
    ensures ({
        let shapes = begin_all(elements, presses);
        let after = updated(shapes, p);
        &&& after.len() == shapes.len()
        &&& after.len() == elements.len() + presses.len()
        &&& forall|i: int| 0 <= i < after.len() - 1 ==> #[trigger] after[i] == shapes[i]
        &&& after.last() == shapes.last().dragged(p)
        &&& after.take(elements.len() as int) == elements
    }),
{
    let shapes = begin_all(elements, presses);
    lemma_begin_all_appends(elements, presses);
    let after = updated(shapes, p);
    assert(after.take(elements.len() as int) =~= shapes.take(elements.len() as int));
}

/// What a session holds: its shapes and the selections for the next one.
pub struct SessionView {
    pub elements: Seq<ToolView>,
    pub current_tool: CurrentDrawingTool,
    pub color: Color,
    pub line_width: u32,
}

/// An annotation session: every shape drawn so far, oldest first, and the
/// kind, color and width that the next shape takes.
pub struct Session {
    elements: Vec<Tool>,
    current_tool: CurrentDrawingTool,
    color: Color,
    line_width: u32,
}

impl View for Session {
    type V = SessionView;

    closed spec fn view(&self) -> SessionView {
        SessionView {
            elements: Seq::new(self.elements@.len(), |i: int| self.elements@[i].model()),
            current_tool: self.current_tool,
            color: self.color,
            line_width: self.line_width,
        }
    }
}

impl Session {
    /// An empty session that draws freehand strokes in red of the given
    /// width, in thousandths of a pixel.
    pub fn new(line_width: u32) -> (r: Session)
        ensures
            r@ == (SessionView {
                elements: Seq::empty(),
                current_tool: CurrentDrawingTool::NormalLine,
                color: Color(850, 100, 50),
                line_width: line_width,
            }),
    {
        let r = Session {
            elements: Vec::new(),
            current_tool: CurrentDrawingTool::NormalLine,
            color: Color::red(),
            line_width: line_width,
        };
        assert(r@.elements =~= Seq::empty());
        r
    }

    /// An empty session whose shapes start with the configured width, or
    /// with the default width where none is configured.
    pub fn with_config(conf: &Configuration) -> (r: Session)
        ensures
            r@ == (SessionView {
                elements: Seq::empty(),
                current_tool: CurrentDrawingTool::NormalLine,
                color: Color(850, 100, 50),
                line_width: match conf.line_thickness {
                    Some(w) => w,
                    None => DEFAULT_WIDTH,
                },
            }),
    {
        let width = match conf.line_thickness {
            Some(w) => w,
            None => DEFAULT_WIDTH,
        };
        Session::new(width)
    }

    /// Every shape, oldest first.
    pub fn elements(&self) -> (r: &Vec<Tool>)
        ensures
            r@.len() == self@.elements.len(),
            forall|i: int| 0 <= i < r@.len() ==> #[trigger] r@[i].model() == self@.elements[i],
    {
        &self.elements
    }

    /// The number of shapes.
    pub fn len(&self) -> (r: usize)
        ensures
            r == self@.elements.len(),
    {
        self.elements.len()
    }

    pub fn current_tool(&self) -> (r: CurrentDrawingTool)
        ensures
            r == self@.current_tool,
    {
        self.current_tool
    }

    pub fn color(&self) -> (r: Color)
        ensures
            r == self@.color,
    {
        self.color
    }

    /// The width of the next shape, in thousandths of a pixel.
    pub fn line_width(&self) -> (r: u32)
        ensures
            r == self@.line_width,
    {
        self.line_width
    }

    /// The kind of the next shapes; the shapes drawn so far keep theirs.
    pub fn select_tool(&mut self, kind: CurrentDrawingTool)
        ensures
            final(self)@ == (SessionView { current_tool: kind, ..old(self)@ }),
    {
        self.current_tool = kind;
    }

    /// The color of the next shapes; the shapes drawn so far keep theirs.
    pub fn select_color(&mut self, color: Color)
        ensures
            final(self)@ == (SessionView { color: color, ..old(self)@ }),
    {
        self.color = color;
    }

    /// Narrows the next shapes' width by `delta` thousandths of a pixel
    /// (widens it for a negative `delta`), down to one pixel at least.
    pub fn scroll_width(&mut self, delta: i64)
        ensures
            final(self)@ == (SessionView {
                line_width: scrolled_width(old(self)@.line_width, delta as int),
                ..old(self)@
            }),
    {
        let w = self.line_width as i64;
        if delta > w - 1000 {
            self.line_width = 1000;
        } else if delta < w - 0xffff_ffff {
            self.line_width = 0xffff_ffff;
        } else {
            self.line_width = (w - delta) as u32;
        }
    }

    /// Begins a shape: a new one of kind `kind`, pressed at `point`, in
    /// `color` and `width`, appended after every earlier shape.
    pub fn begin_new_shape(&mut self, kind: CurrentDrawingTool, point: Point, color: Color, width: u32)
        ensures
            final(self)@ == (SessionView {
                elements: begun(old(self)@.elements, kind, point, color, width),
                ..old(self)@
            }),
    {
        let mut t = Tool::new(kind);
        t.press_mouse(point);
        t.set_line_width(width);
        t.set_color(color);
        self.elements.push(t);
        assert(self@.elements =~= begun(old(self)@.elements, kind, point, color, width));
    }

    /// The pointer was pressed at `point`: begins a shape of the selected
    /// kind, color and width.
    pub fn press_mouse(&mut self, point: Point)
        ensures
            final(self)@ == (SessionView {
                elements: begun(
                    old(self)@.elements,
                    old(self)@.current_tool,
                    point,
                    old(self)@.color,
                    old(self)@.line_width,
                ),
                ..old(self)@
            }),
    {
        let kind = self.current_tool;
        let color = self.color;
        let width = self.line_width;
        self.begin_new_shape(kind, point, color, width);
    }

    /// The pointer moved to `point`: the last shape follows it. Returns
    /// whether that shape is still active, so that it needs a redraw.
    pub fn update_last(&mut self, point: Point) -> (redraw: bool)
        ensures
            final(self)@ == (SessionView {
                elements: updated(old(self)@.elements, point),
                ..old(self)@
            }),
            redraw == (old(self)@.elements.len() > 0
                && updated(old(self)@.elements, point).last().is_active()),
    {
        match self.elements.pop() {
            Some(mut t) => {
                t.motion_notify(point);
                let redraw = t.active();
                self.elements.push(t);
                assert(self@.elements =~= updated(old(self)@.elements, point));
                redraw
            },
            None => false,
        }
    }

    /// The pointer was released at `point`: the last shape is finished.
    pub fn finish_last(&mut self, point: Point)
        ensures
            final(self)@ == (SessionView {
                elements: finished_last(old(self)@.elements, point),
                ..old(self)@
            }),
    {
        match self.elements.pop() {
            Some(mut t) => {
                t.release_mouse(point);
                self.elements.push(t);
                assert(self@.elements =~= finished_last(old(self)@.elements, point));
            },
            None => {},
        }
    }

    /// The canvas calls that draw every shape, oldest first.
    pub fn render_all(&self) -> (r: Vec<CanvasOp>)
        ensures
            r@ == plans(self@.elements),
    {
        let mut ops: Vec<CanvasOp> = Vec::new();
        let mut i: usize = 0;
        while i < self.elements.len()
            invariant
                i <= self.elements@.len(),
                ops@ == plans(self@.elements.take(i as int)),
            decreases self.elements@.len() - i,
        {
            let mut part = self.elements[i].draw();
            ops.append(&mut part);
            proof {
                let s = self@.elements;
                assert(s.take(i + 1).drop_last() =~= s.take(i as int));
            }
            i = i + 1;
        }
        assert(self@.elements.take(i as int) =~= self@.elements);
        ops
    }
}

} // verus!
