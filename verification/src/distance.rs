//! Euclidean distance from a point to a segment or to a linestring.
//!
//! Segment distance projects the point onto the segment's infinite line:
//! a projection parameter at or before the start gives the distance to the
//! start, at or past the end the distance to the end, and strictly inside
//! the perpendicular distance. A degenerate segment (coinciding endpoints)
//! collapses to point-to-point distance. Linestring distance short-circuits
//! to zero through the boundary-membership test, then takes the minimum of
//! the segment distances.

use vstd::prelude::*;

use crate::containment::{spec_coords_eq, spec_linestring_contains};
use crate::geometry::{Coordinate, Line, LineString, Point};
use crate::scalar::{MetricScalar, Scalar};

verus! {

/// The straight-line length of a segment: the Euclidean norm of its run and
/// rise, in the scalar's own arithmetic.
pub open spec fn spec_line_length<T: MetricScalar>(l: Line<T>) -> T {
    l.end.x.spec_minus(l.start.x).spec_hypot(l.end.y.spec_minus(l.start.y))
}

/// The projection parameter of `p` on the line through `s` and `e`: the
/// dot product of (p - s) with (e - s), divided by the squared length of
/// (e - s), all in the scalar's arithmetic.
pub open spec fn spec_projection<T: MetricScalar>(
    p: Coordinate<T>,
    s: Coordinate<T>,
    e: Coordinate<T>,
) -> T {
    let dx = e.x.spec_minus(s.x);
    let dy = e.y.spec_minus(s.y);
    p.x.spec_minus(s.x).spec_times(dx).spec_plus(p.y.spec_minus(s.y).spec_times(dy)).spec_over(
        dx.spec_times(dx).spec_plus(dy.spec_times(dy)),
    )
}

/// The perpendicular distance of `p` from the line through `s` and `e`:
/// the normalized cross product's magnitude times the segment length.
pub open spec fn spec_perpendicular<T: MetricScalar>(
    p: Coordinate<T>,
    s: Coordinate<T>,
    e: Coordinate<T>,
) -> T {
    let dx = e.x.spec_minus(s.x);
    let dy = e.y.spec_minus(s.y);
    s.y.spec_minus(p.y).spec_times(dx).spec_minus(s.x.spec_minus(p.x).spec_times(dy)).spec_over(
        dx.spec_times(dx).spec_plus(dy.spec_times(dy)),
    ).spec_abs().spec_times(dx.spec_hypot(dy))
}

/// The Euclidean distance from `p` to the segment from `s` to `e`: the
/// distance to `s` for a degenerate segment or a projection at or before
/// the start, the distance to `e` for a projection at or past the end, and
/// the perpendicular distance in between.
pub open spec fn spec_segment_distance<T: MetricScalar>(
    p: Coordinate<T>,
    s: Coordinate<T>,
    e: Coordinate<T>,
) -> T {
    if spec_coords_eq(s, e) {
        spec_line_length(Line { start: p, end: s })
    } else {
        let r = spec_projection(p, s, e);
        if r.spec_le(T::spec_zero()) {
            spec_line_length(Line { start: p, end: s })
        } else if T::spec_one().spec_le(r) {
            spec_line_length(Line { start: p, end: e })
        } else {
            spec_perpendicular(p, s, e)
        }
    }
}

/// Minimum, folded in order from the scalar's greatest value, of the
/// distances from `p` to the first `n` segments of `cs`.
pub open spec fn min_distance_upto<T: MetricScalar>(
    p: Coordinate<T>,
    cs: Seq<Coordinate<T>>,
    n: int,
) -> T
    decreases n,
{
    if n <= 0 {
        T::spec_greatest()
    } else {
        min_distance_upto(p, cs, n - 1).spec_min(spec_segment_distance(p, cs[n - 1], cs[n]))
    }
}

/// The distance from `p` to a linestring: zero when the linestring is empty
/// or already holds the point on its boundary, otherwise the minimum of the
/// distances to every consecutive segment (of which a single-coordinate
/// linestring has none, leaving the fold's seed).
pub open spec fn spec_point_linestring_distance<T: MetricScalar>(
    p: Coordinate<T>,
    ls: LineString<T>,
) -> T {
    if spec_linestring_contains(ls, p) || ls.0@.len() == 0 {
        T::spec_zero()
    } else {
        min_distance_upto(p, ls.0@, ls.0@.len() - 1)
    }
}

/// The Euclidean length of a single segment.
pub fn line_euclidean_length<T: MetricScalar>(line: Line<T>) -> (r: T)
    ensures
        r == spec_line_length(line),
{
    line.dx().hypot(line.dy())
}

/// The Euclidean distance from `point` to the segment from `start` to
/// `end`, degenerate segments included.
pub fn line_segment_distance<T: MetricScalar>(point: Point<T>, start: Point<T>, end: Point<T>) -> (r:
    T)
    ensures
        r == spec_segment_distance(point.0, start.0, end.0),
{
    if start.x().eqv(end.x()) && start.y().eqv(end.y()) {
        return line_euclidean_length(Line::new(point.0, start.0));
    }
    let dx = end.x().minus(start.x());
    let dy = end.y().minus(start.y());
    let d2 = dx.times(dx).plus(dy.times(dy));
    let r = point.x().minus(start.x()).times(dx).plus(point.y().minus(start.y()).times(dy)).over(
        d2,
    );
    if r.le(T::zero()) {
        return line_euclidean_length(Line::new(point.0, start.0));
    }
    if T::one().le(r) {
        return line_euclidean_length(Line::new(point.0, end.0));
    }
    let s = start.y().minus(point.y()).times(dx).minus(start.x().minus(point.x()).times(dy)).over(
        d2,
    );
    s.abs_val().times(dx.hypot(dy))
}

/// The point-to-segment distance, exposed as the single-segment
/// specialization on a line value.
pub fn point_line_euclidean_distance<T: MetricScalar>(p: Point<T>, l: Line<T>) -> (r: T)
    ensures
        r == spec_segment_distance(p.0, l.start, l.end),
{
    line_segment_distance(p, l.start_point(), l.end_point())
}

/// The distance from `p` to the boundary traced by `l`: zero through the
/// membership fast path or for an empty linestring, else the minimum over
/// every consecutive segment.
pub fn point_line_string_euclidean_distance<T: MetricScalar>(p: Point<T>, l: &LineString<T>) -> (r:
    T)
    ensures
        r == spec_point_linestring_distance(p.0, *l),
{
    if crate::containment::line_string_contains_point(l, p) {
        return T::zero();
    }
    if l.0.len() == 0 {
        return T::zero();
    }
    let mut acc: T = T::greatest();
    let mut i: usize = 0;
    while i + 1 < l.0.len()
        invariant
            i + 1 <= l.0@.len(),
            l.0@.len() >= 1,
            !spec_linestring_contains(*l, p.0),
            acc == min_distance_upto(p.0, l.0@, i as int),
        decreases l.0.len() - i,
    {
        acc = acc.min_with(line_segment_distance(p, Point(l.0[i]), Point(l.0[i + 1])));
        i = i + 1;
    }
    acc
}

/// Law: the distance to a degenerate segment, both of whose endpoints are
/// one coordinate on which the scalar's equality is reflexive, is the
/// straight-line distance from the point to that coordinate. (A coordinate
/// with a non-reflexive component, such as a non-finite value, is excluded.)
pub proof fn lemma_degenerate_segment_distance<T: MetricScalar>(p: Coordinate<T>, s: Coordinate<T>)
    requires
        s.x.spec_eq(s.x),
        s.y.spec_eq(s.y),
    ensures
        spec_segment_distance(p, s, s) == spec_line_length(Line { start: p, end: s }),
{
}

/// Law: a point that exactly equals any vertex of a linestring of two or
/// more coordinates has distance zero to it, through the membership fast
/// path.
pub proof fn lemma_vertex_distance_zero<T: MetricScalar>(
    p: Coordinate<T>,
    ls: LineString<T>,
    i: int,
)
    requires
        ls.0@.len() >= 2,
        0 <= i < ls.0@.len(),
        spec_coords_eq(ls.0@[i], p),
    ensures
        spec_point_linestring_distance(p, ls) == T::spec_zero(),
{
    crate::containment::lemma_vertex_is_contained(ls, p, i);
}

/// Law (exact scalar): a point equal to the single coordinate of a
/// one-coordinate linestring also has distance zero to it — the exact
/// straight-line distance is zero, which passes the near-zero test.
pub proof fn lemma_single_vertex_distance_zero_exact(
    p: Coordinate<crate::scalar::Exact>,
    ls: LineString<crate::scalar::Exact>,
)
    requires
        ls.0@.len() == 1,
        spec_coords_eq(ls.0@[0], p),
    ensures
        spec_point_linestring_distance(p, ls) == crate::scalar::Exact::spec_zero(),
{
    let c = ls.0@[0];
    assert(c.x.0 == p.x.0 && c.y.0 == p.y.0);
    assert(p.x.spec_minus(c.x) == crate::scalar::Exact(0i64));
    assert(p.y.spec_minus(c.y) == crate::scalar::Exact(0i64));
    crate::scalar::lemma_exact_hypot_zero();
}

/// Law: a point strictly straddled by an axis-aligned segment of a
/// linestring has distance zero to it, through the membership fast path.
pub proof fn lemma_axis_straddle_distance_zero<T: MetricScalar>(
    p: Coordinate<T>,
    ls: LineString<T>,
    i: int,
)
    requires
        ls.0@.len() >= 2,
        0 <= i < ls.0@.len() - 1,
        crate::containment::spec_on_axis_segment(ls.0@[i], ls.0@[i + 1], p),
    ensures
        spec_point_linestring_distance(p, ls) == T::spec_zero(),
{
    crate::containment::lemma_axis_straddle_is_contained(ls, p, i);
}

} // verus!
