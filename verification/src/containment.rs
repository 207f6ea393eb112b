//! Boundary membership: whether a point lies exactly on a linear shape.
//!
//! Point coincidence goes through the scalar's deliberately reduced-precision
//! near-zero test on the straight-line distance. Linestring membership first
//! matches the point exactly against every vertex, then looks for an
//! axis-aligned (horizontal or vertical) segment whose extent strictly
//! straddles it. A point strictly inside a diagonal segment is deliberately
//! not detected — an intentional scope limit of the algorithm that
//! callers rely on, not a gap to close.

use vstd::prelude::*;

use crate::geometry::{Coordinate, Line, LineString, Point};
use crate::scalar::MetricScalar;

verus! {

/// Exact coordinate equality, component-wise in the scalar's own equality
/// (so it need not be reflexive on non-finite components).
pub open spec fn spec_coords_eq<T: MetricScalar>(a: Coordinate<T>, b: Coordinate<T>) -> bool {
    a.x.spec_eq(b.x) && a.y.spec_eq(b.y)
}

/// Whether two points coincide: their straight-line distance passes the
/// scalar's reduced-precision near-zero test.
pub open spec fn spec_point_contains_point<T: MetricScalar>(
    p1: Coordinate<T>,
    p2: Coordinate<T>,
) -> bool {
    crate::distance::spec_line_length(Line { start: p1, end: p2 }).spec_near_zero()
}

/// Whether the segment from `a` to `b` is axis-aligned and strictly
/// straddles `p`: horizontal at `p`'s y with `p`'s x strictly between the
/// segment's x-extremes, or vertical at `p`'s x with `p`'s y strictly
/// between its y-extremes.
pub open spec fn spec_on_axis_segment<T: MetricScalar>(
    a: Coordinate<T>,
    b: Coordinate<T>,
    p: Coordinate<T>,
) -> bool {
    (a.y.spec_eq(b.y) && a.y.spec_eq(p.y) && a.x.spec_min(b.x).spec_lt(p.x) && p.x.spec_lt(
        a.x.spec_max(b.x),
    )) || (a.x.spec_eq(b.x) && a.x.spec_eq(p.x) && a.y.spec_min(b.y).spec_lt(p.y) && p.y.spec_lt(
        a.y.spec_max(b.y),
    ))
}

/// Whether `p` lies on the boundary traced by `ls`: an empty linestring
/// holds nothing; a single coordinate holds what coincides with it; otherwise
/// `p` must exactly equal a vertex or be strictly straddled by an
/// axis-aligned segment.
pub open spec fn spec_linestring_contains<T: MetricScalar>(
    ls: LineString<T>,
    p: Coordinate<T>,
) -> bool {
    if ls.0@.len() == 0 {
        false
    } else if ls.0@.len() == 1 {
        spec_point_contains_point(ls.0@[0], p)
    } else if exists|i: int| 0 <= i < ls.0@.len() && #[trigger] spec_coords_eq(ls.0@[i], p) {
        true
    } else {
        exists|i: int|
            0 <= i < ls.0@.len() - 1 && #[trigger] spec_on_axis_segment(ls.0@[i], ls.0@[i + 1], p)
    }
}

/// Exact equality of two coordinates, component-wise in the scalar's own
/// equality test.
fn coords_eq<T: MetricScalar>(a: Coordinate<T>, b: Coordinate<T>) -> (r: bool)
    ensures
        r == spec_coords_eq(a, b),
{
    a.x.eqv(b.x) && a.y.eqv(b.y)
}

/// Whether two points coincide under the reduced-precision tolerance policy.
pub fn point_contains_point<T: MetricScalar>(p1: Point<T>, p2: Point<T>) -> (r: bool)
    ensures
        r == spec_point_contains_point(p1.0, p2.0),
{
    let distance = crate::distance::line_euclidean_length(Line::new(p1.0, p2.0));
    distance.near_zero()
}

/// Whether `point` lies exactly on the boundary traced by `line_string`.
pub fn line_string_contains_point<T: MetricScalar>(
    line_string: &LineString<T>,
    point: Point<T>,
) -> (r: bool)
    ensures
        r == spec_linestring_contains(*line_string, point.0),
{
    if line_string.0.len() == 0 {
        return false;
    }
    if line_string.0.len() == 1 {
        return point_contains_point(Point(line_string.0[0]), point);
    }
    let mut i: usize = 0;
    while i < line_string.0.len()
        invariant
            i <= line_string.0@.len(),
            line_string.0@.len() >= 2,
            forall|j: int| 0 <= j < i ==> !#[trigger] spec_coords_eq(line_string.0@[j], point.0),
        decreases line_string.0.len() - i,
    {
        if coords_eq(line_string.0[i], point.0) {
            proof {
                assert(spec_coords_eq(line_string.0@[i as int], point.0));
                assert(exists|j: int|
                    0 <= j < line_string.0@.len() && #[trigger] spec_coords_eq(
                        line_string.0@[j],
                        point.0,
                    ));
            }
            return true;
        }
        i = i + 1;
    }
    let mut i: usize = 0;
    while i + 1 < line_string.0.len()
        invariant
            i + 1 <= line_string.0@.len(),
            line_string.0@.len() >= 2,
            forall|j: int| 0 <= j < line_string.0@.len()
                ==> !#[trigger] spec_coords_eq(line_string.0@[j], point.0),
            forall|j: int| 0 <= j < i
                ==> !#[trigger] spec_on_axis_segment(
                    line_string.0@[j],
                    line_string.0@[j + 1],
                    point.0,
                ),
        decreases line_string.0.len() - i,
    {
        let a = line_string.0[i];
        let b = line_string.0[i + 1];
        let p = point.0;
        let horizontal = a.y.eqv(b.y) && a.y.eqv(p.y) && a.x.min_with(b.x).lt(p.x) && p.x.lt(
            a.x.max_with(b.x),
        );
        let vertical = a.x.eqv(b.x) && a.x.eqv(p.x) && a.y.min_with(b.y).lt(p.y) && p.y.lt(
            a.y.max_with(b.y),
        );
        if horizontal || vertical {
            proof {
                assert(spec_on_axis_segment(
                    line_string.0@[i as int],
                    line_string.0@[i as int + 1],
                    point.0,
                ));
                assert(exists|j: int|
                    0 <= j < line_string.0@.len() - 1 && #[trigger] spec_on_axis_segment(
                        line_string.0@[j],
                        line_string.0@[j + 1],
                        point.0,
                    ));
            }
            return true;
        }
        i = i + 1;
    }
    false
}

/// Law: a linestring of two or more vertices whose every segment is
/// diagonal (neither horizontal nor vertical) contains no point that fails
/// exact vertex equality — even one lying strictly inside a segment. This
/// is the documented scope limit of the membership test.
pub proof fn lemma_diagonal_interior_not_contained<T: MetricScalar>(
    ls: LineString<T>,
    p: Coordinate<T>,
)
    requires
        ls.0@.len() >= 2,
        forall|i: int| 0 <= i < ls.0@.len() ==> !#[trigger] spec_coords_eq(ls.0@[i], p),
        forall|i: int| 0 <= i < ls.0@.len() - 1
            ==> !(#[trigger] ls.0@[i].x.spec_eq(ls.0@[i + 1].x)) && !ls.0@[i].y.spec_eq(
                ls.0@[i + 1].y,
            ),
    ensures
        !spec_linestring_contains(ls, p),
{
    assert forall|i: int| 0 <= i < ls.0@.len() - 1
        implies !#[trigger] spec_on_axis_segment(ls.0@[i], ls.0@[i + 1], p) by {
        assert(!ls.0@[i].x.spec_eq(ls.0@[i + 1].x));
        assert(!ls.0@[i].y.spec_eq(ls.0@[i + 1].y));
    }
}

/// Law: a point that exactly equals any vertex of a linestring of two or
/// more vertices lies on its boundary.
pub proof fn lemma_vertex_is_contained<T: MetricScalar>(
    ls: LineString<T>,
    p: Coordinate<T>,
    i: int,
)
    requires
        ls.0@.len() >= 2,
        0 <= i < ls.0@.len(),
        spec_coords_eq(ls.0@[i], p),
    ensures
        spec_linestring_contains(ls, p),
{
}

/// Law: a point strictly straddled by an axis-aligned segment of a
/// linestring of two or more vertices lies on its boundary.
pub proof fn lemma_axis_straddle_is_contained<T: MetricScalar>(
    ls: LineString<T>,
    p: Coordinate<T>,
    i: int,
)
    requires
        ls.0@.len() >= 2,
        0 <= i < ls.0@.len() - 1,
        spec_on_axis_segment(ls.0@[i], ls.0@[i + 1], p),
    ensures
        spec_linestring_contains(ls, p),
{
}

} // verus!
