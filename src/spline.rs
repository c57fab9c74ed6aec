use vstd::prelude::*;
use crate::point::{Point, Vector};

verus! {

// Each window of four consecutive points p0, p1, p2, p3 gets the cubic
// segment from p1 to p2. Its control offsets d1 (at p1) and d2 (at p2)
// solve the tridiagonal system of the interpolating cubic spline
//     d0 + 4 d1 + d2 = p2 - p0
//     d1 + 4 d2 + d3 = p3 - p1
// with the boundary offsets d0 = (p1 - p0) / 3 and d3 = (p3 - p2) / 3.
// Scaled by 45 (3 for the boundary thirds, 15 for the determinant) every
// quantity is an integer, so the control points are exact.

/// 45 times the control offset at the window's second point, one coordinate.
pub open spec fn lead_offset(a: int, b: int, c: int, d: int) -> int {
    11 * c - 8 * a - b - 2 * d
}

/// 45 times the control offset at the window's third point, one coordinate.
pub open spec fn trail_offset(a: int, b: int, c: int, d: int) -> int {
    2 * a - 11 * b + c + 8 * d
}

/// The two control points, scaled by 45, of the segment from `p1` to `p2`.
pub open spec fn window_controls_spec(p0: Point, p1: Point, p2: Point, p3: Point) -> (Vector, Vector) {
    (
        Vector(
            (45 * p1.0 + lead_offset(p0.0 as int, p1.0 as int, p2.0 as int, p3.0 as int)) as i64,
            (45 * p1.1 + lead_offset(p0.1 as int, p1.1 as int, p2.1 as int, p3.1 as int)) as i64,
        ),
        Vector(
            (45 * p2.0 - trail_offset(p0.0 as int, p1.0 as int, p2.0 as int, p3.0 as int)) as i64,
            (45 * p2.1 - trail_offset(p0.1 as int, p1.1 as int, p2.1 as int, p3.1 as int)) as i64,
        ),
    )
}

/// The control points of every window of four consecutive points, in order;
/// none below four points.
pub open spec fn spline_controls(points: Seq<Point>) -> Seq<(Vector, Vector)> {
    if points.len() < 4 {
        Seq::empty()
    } else {
        Seq::new(
            (points.len() - 3) as nat,
            |k: int| window_controls_spec(points[k], points[k + 1], points[k + 2], points[k + 3]),
        )
    }
}

/// The scaled offsets solve the window's spline system, one coordinate at a
/// time: `d0 + 4 d1 + d2 = c - a` and `d1 + 4 d2 + d3 = d - b`, all times 45.
pub proof fn lemma_window_solves_system(a: int, b: int, c: int, d: int)
    ensures
        15 * (b - a) + 4 * lead_offset(a, b, c, d) + trail_offset(a, b, c, d) == 45 * (c - a),
        lead_offset(a, b, c, d) + 4 * trail_offset(a, b, c, d) + 15 * (d - c) == 45 * (d - b),
{
}

/// Four evenly spaced points on a line give control offsets of a third of
/// the spacing at both ends of the middle segment: the offsets point along
/// the line, and the segment is straight.
pub proof fn lemma_even_collinear_window(p0: Point, p1: Point, p2: Point, p3: Point)
    requires
        p1.0 - p0.0 == p2.0 - p1.0 == p3.0 - p2.0,
        p1.1 - p0.1 == p2.1 - p1.1 == p3.1 - p2.1,
    ensures
        lead_offset(p0.0 as int, p1.0 as int, p2.0 as int, p3.0 as int) == 15 * (p1.0 - p0.0),
        lead_offset(p0.1 as int, p1.1 as int, p2.1 as int, p3.1 as int) == 15 * (p1.1 - p0.1),
        trail_offset(p0.0 as int, p1.0 as int, p2.0 as int, p3.0 as int) == 15 * (p1.0 - p0.0),
        trail_offset(p0.1 as int, p1.1 as int, p2.1 as int, p3.1 as int) == 15 * (p1.1 - p0.1),
        window_controls_spec(p0, p1, p2, p3).0 == Vector(
            (45 * p1.0 + 15 * (p1.0 - p0.0)) as i64,
            (45 * p1.1 + 15 * (p1.1 - p0.1)) as i64,
        ),
        window_controls_spec(p0, p1, p2, p3).1 == Vector(
            (45 * p2.0 - 15 * (p1.0 - p0.0)) as i64,
            (45 * p2.1 - 15 * (p1.1 - p0.1)) as i64,
        ),
{
}

/// The control points of the segment from `p1` to `p2`, scaled by 45,
/// by eliminating the window's 2x2 system.
pub fn window_controls(p0: Point, p1: Point, p2: Point, p3: Point) -> (r: (Vector, Vector))
    ensures
        r == window_controls_spec(p0, p1, p2, p3),
{
    // right-hand sides of the system, times 3, with the boundary offsets moved over
    let r1 = p2.minus(p0).scaled(3).minus(p1.minus(p0));
    let r2 = p3.minus(p1).scaled(3).minus(p3.minus(p2));
    // the inverse of [[4, 1], [1, 4]] is [[4, -1], [-1, 4]] / 15
    let lead = r1.scaled(4).minus(r2);
    let trail = r2.scaled(4).minus(r1);
    let first = p1.scaled(45).plus(lead);
    let second = p2.scaled(45).minus(trail);
    (first, second)
}

/// The control points of every segment between the inner points of the
/// stroke: one pair for each window of four consecutive points, and none
/// for fewer than four points.
pub fn calc_whole_spline(points: &Vec<Point>) -> (r: Vec<(Vector, Vector)>)
    ensures
        r@ == spline_controls(points@),
{
    let n = points.len();
    let mut controls: Vec<(Vector, Vector)> = Vec::new();
    if n < 4 {
        return controls;
    }
    let mut k: usize = 0;
    while k + 3 < n
        invariant
            n == points@.len(),
            n >= 4,
            k <= n - 3,
            controls@ =~= spline_controls(points@).take(k as int),
        decreases n - k,
    {
        let pair = window_controls(points[k], points[k + 1], points[k + 2], points[k + 3]);
        controls.push(pair);
        k = k + 1;
    }
    assert(controls@ =~= spline_controls(points@));
    controls
}

} // verus!
