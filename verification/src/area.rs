//! Signed planar area, dispatched over every shape kind.
//!
//! A ring's twice-signed area is the shoelace sum of the determinants of its
//! consecutive coordinate pairs; counter-clockwise winding yields a positive
//! value and reversing the vertex order negates it. Polygons subtract their
//! holes, multi-polygons and collections sum their members in sequence
//! order, rectangles multiply width by height, and all purely linear shapes
//! have area zero. Every contract states the exact folded expression in the
//! scalar's own arithmetic.

use vstd::prelude::*;

use crate::geometry::{
    Coordinate, Geometry, GeometryCollection, GeometryCow, Held, Line, LineString,
    MultiPolygon, Point, Polygon, Rect, Triangle,
};
use crate::scalar::{Exact, Scalar};

verus! {

broadcast use
    vstd::seq::axiom_seq_index_decreases,
    vstd::std_specs::vec::axiom_vec_index_decreases,
    vstd::std_specs::vec::axiom_vec_decreases_to_view;

/// Twice the signed-area contribution of the ring edge from `a` to `b`: the
/// determinant of the two coordinates.
pub open spec fn edge_cross<T: Scalar>(a: Coordinate<T>, b: Coordinate<T>) -> T {
    a.x.spec_times(b.y).spec_minus(a.y.spec_times(b.x))
}

/// Left fold, in ring order, of the first `n` edge determinants of `cs`,
/// starting from zero.
pub open spec fn twice_ring_area_upto<T: Scalar>(cs: Seq<Coordinate<T>>, n: int) -> T
    decreases n,
{
    if n <= 0 {
        T::spec_zero()
    } else {
        twice_ring_area_upto(cs, n - 1).spec_plus(edge_cross(cs[n - 1], cs[n]))
    }
}

/// Twice the signed area of a ring: the shoelace sum over its consecutive
/// coordinate pairs. A ring of fewer than three coordinates encloses
/// nothing and counts as zero.
pub open spec fn spec_twice_ring_area<T: Scalar>(cs: Seq<Coordinate<T>>) -> T {
    if cs.len() < 3 {
        T::spec_zero()
    } else {
        twice_ring_area_upto(cs, cs.len() - 1)
    }
}

/// The signed area enclosed by one ring: half its shoelace sum, in the
/// scalar's own arithmetic.
pub open spec fn spec_linestring_area<T: Scalar>(ls: LineString<T>) -> T {
    spec_twice_ring_area(ls.0@).spec_over(T::spec_one().spec_plus(T::spec_one()))
}

/// The exterior ring's area minus the areas of the first `n` interior
/// rings, folded in sequence order.
pub open spec fn polygon_area_upto<T: Scalar>(p: Polygon<T>, n: int) -> T
    decreases n,
{
    if n <= 0 {
        spec_linestring_area(p.exterior)
    } else {
        polygon_area_upto(p, n - 1).spec_minus(spec_linestring_area(p.interiors@[n - 1]))
    }
}

/// The signed area of a polygon: its exterior ring's area minus every hole's
/// area, in sequence order.
pub open spec fn spec_polygon_area<T: Scalar>(p: Polygon<T>) -> T {
    polygon_area_upto(p, p.interiors@.len() as int)
}

/// Sum, from zero and in sequence order, of the areas of the first `n`
/// polygons.
pub open spec fn multi_polygon_area_upto<T: Scalar>(ps: Seq<Polygon<T>>, n: int) -> T
    decreases n,
{
    if n <= 0 {
        T::spec_zero()
    } else {
        multi_polygon_area_upto(ps, n - 1).spec_plus(spec_polygon_area(ps[n - 1]))
    }
}

/// The area of a multi-polygon: the plain sum of its members' signed areas,
/// not a union.
pub open spec fn spec_multi_polygon_area<T: Scalar>(mp: MultiPolygon<T>) -> T {
    multi_polygon_area_upto(mp.0@, mp.0@.len() as int)
}

/// The area of an axis-aligned rectangle: width times height.
pub open spec fn spec_rect_area<T: Scalar>(r: Rect<T>) -> T {
    r.max.x.spec_minus(r.min.x).spec_times(r.max.y.spec_minus(r.min.y))
}

/// The signed area of a triangle: half the sum of its three edge
/// determinants, folded from zero — the ring formula specialized to exactly
/// three vertices.
pub open spec fn spec_triangle_area<T: Scalar>(t: Triangle<T>) -> T {
    T::spec_zero().spec_plus(edge_cross(t.0, t.1)).spec_plus(edge_cross(t.1, t.2)).spec_plus(
        edge_cross(t.2, t.0),
    ).spec_over(T::spec_one().spec_plus(T::spec_one()))
}

/// The signed area of an arbitrary shape, recursing through collections.
pub open spec fn spec_geometry_area<T: Scalar>(g: Geometry<T>) -> T
    decreases g,
{
    match g {
        Geometry::Point(_) => T::spec_zero(),
        Geometry::Line(_) => T::spec_zero(),
        Geometry::LineString(_) => T::spec_zero(),
        Geometry::Polygon(p) => spec_polygon_area(p),
        Geometry::MultiPoint(_) => T::spec_zero(),
        Geometry::MultiLineString(_) => T::spec_zero(),
        Geometry::MultiPolygon(mp) => spec_multi_polygon_area(mp),
        Geometry::GeometryCollection(c) => collection_area(c.0@),
        Geometry::Rect(r) => spec_rect_area(r),
        Geometry::Triangle(t) => spec_triangle_area(t),
    }
}

/// Sum, from zero and in sequence order, of the areas of a sequence of
/// heterogeneous shapes.
pub open spec fn collection_area<T: Scalar>(gs: Seq<Geometry<T>>) -> T
    decreases gs,
{
    if gs.len() == 0 {
        T::spec_zero()
    } else {
        collection_area(gs.drop_last()).spec_plus(spec_geometry_area(gs.last()))
    }
}

/// The area of a heterogeneous collection: the sum of its members' areas in
/// sequence order, nested collections included.
pub open spec fn spec_collection_area<T: Scalar>(c: GeometryCollection<T>) -> T {
    collection_area(c.0@)
}

/// The area of a dispatch wrapper is the area of whatever shape it holds.
pub open spec fn spec_cow_area<'a, T: Scalar>(g: GeometryCow<'a, T>) -> T {
    match g {
        GeometryCow::Point(_) => T::spec_zero(),
        GeometryCow::Line(_) => T::spec_zero(),
        GeometryCow::LineString(_) => T::spec_zero(),
        GeometryCow::Polygon(h) => spec_polygon_area(h.spec_value()),
        GeometryCow::MultiPoint(_) => T::spec_zero(),
        GeometryCow::MultiLineString(_) => T::spec_zero(),
        GeometryCow::MultiPolygon(h) => spec_multi_polygon_area(h.spec_value()),
        GeometryCow::GeometryCollection(h) => spec_collection_area(h.spec_value()),
        GeometryCow::Rect(h) => spec_rect_area(h.spec_value()),
        GeometryCow::Triangle(h) => spec_triangle_area(h.spec_value()),
    }
}

/// Twice the signed area of a ring, computed as a left fold of the edge
/// determinants.
fn twice_signed_ring_area<T: Scalar>(ls: &LineString<T>) -> (r: T)
    ensures
        r == spec_twice_ring_area(ls.0@),
{
    if ls.0.len() < 3 {
        return T::zero();
    }
    let mut tmp: T = T::zero();
    let mut i: usize = 0;
    while i + 1 < ls.0.len()
        invariant
            i + 1 <= ls.0.len(),
            ls.0.len() >= 3,
            tmp == twice_ring_area_upto(ls.0@, i as int),
        decreases ls.0.len() - i,
    {
        let line = Line::new(ls.0[i], ls.0[i + 1]);
        tmp = tmp.plus(line.determinant());
        i = i + 1;
    }
    tmp
}

/// The signed area enclosed by one ring, without holes.
pub fn get_linestring_area<T: Scalar>(linestring: &LineString<T>) -> (r: T)
    ensures
        r == spec_linestring_area(*linestring),
{
    twice_signed_ring_area(linestring).over(T::one().plus(T::one()))
}

/// The signed area of a polygon: exterior ring minus each hole, in order.
pub fn area_polygon<T: Scalar>(polygon: &Polygon<T>) -> (r: T)
    ensures
        r == spec_polygon_area(*polygon),
{
    let mut total: T = get_linestring_area(polygon.exterior());
    let mut i: usize = 0;
    while i < polygon.interiors.len()
        invariant
            i <= polygon.interiors.len(),
            total == polygon_area_upto(*polygon, i as int),
        decreases polygon.interiors.len() - i,
    {
        total = total.minus(get_linestring_area(&polygon.interiors[i]));
        i = i + 1;
    }
    total
}

/// The plain sum of the member polygons' signed areas, in sequence order.
pub fn area_multi_polygon<T: Scalar>(multi_polygon: &MultiPolygon<T>) -> (r: T)
    ensures
        r == spec_multi_polygon_area(*multi_polygon),
{
    let mut total: T = T::zero();
    let mut i: usize = 0;
    while i < multi_polygon.0.len()
        invariant
            i <= multi_polygon.0.len(),
            total == multi_polygon_area_upto(multi_polygon.0@, i as int),
        decreases multi_polygon.0.len() - i,
    {
        total = total.plus(area_polygon(&multi_polygon.0[i]));
        i = i + 1;
    }
    total
}

/// The sum of the members' areas, recursing through the dispatcher for each
/// heterogeneous member.
pub fn area_geometry_collection<T: Scalar>(geometry_collection: &GeometryCollection<T>) -> (r: T)
    ensures
        r == spec_collection_area(*geometry_collection),
    decreases *geometry_collection,
{
    let mut total: T = T::zero();
    let mut i: usize = 0;
    while i < geometry_collection.0.len()
        invariant
            i <= geometry_collection.0.len(),
            total == collection_area(geometry_collection.0@.take(i as int)),
        decreases geometry_collection.0.len() - i,
    {
        proof {
            assert(decreases_to!(*geometry_collection => geometry_collection.0));
            assert(decreases_to!(geometry_collection.0 => geometry_collection.0@));
            assert(decreases_to!(geometry_collection.0@ => geometry_collection.0@[i as int]));
            assert(geometry_collection.0@.take(i as int + 1).drop_last()
                =~= geometry_collection.0@.take(i as int));
            assert(geometry_collection.0@.take(i as int + 1).last()
                == geometry_collection.0@[i as int]);
        }
        total = total.plus(area_geometry(&geometry_collection.0[i]));
        i = i + 1;
    }
    proof {
        assert(geometry_collection.0@.take(geometry_collection.0@.len() as int)
            =~= geometry_collection.0@);
    }
    total
}

/// The area of an arbitrary shape: the single entry point every shape kind
/// is matched on.
pub fn area_geometry<T: Scalar>(geometry: &Geometry<T>) -> (r: T)
    ensures
        r == spec_geometry_area(*geometry),
    decreases *geometry,
{
    match geometry {
        Geometry::Point(_) => T::zero(),
        Geometry::Line(_) => T::zero(),
        Geometry::LineString(_) => T::zero(),
        Geometry::Polygon(p) => area_polygon(p),
        Geometry::MultiPoint(_) => T::zero(),
        Geometry::MultiLineString(_) => T::zero(),
        Geometry::MultiPolygon(mp) => area_multi_polygon(mp),
        Geometry::GeometryCollection(c) => area_geometry_collection(c),
        Geometry::Rect(r) => area_rect(r),
        Geometry::Triangle(t) => area_triangle(t),
    }
}

/// Width times height, in the scalar's arithmetic; under the `min <= max`
/// assumption this never encodes winding and is non-negative.
pub fn area_rect<T: Scalar>(rect: &Rect<T>) -> (r: T)
    ensures
        r == spec_rect_area(*rect),
{
    rect.width().times(rect.height())
}

/// Half the folded sum of the three edge determinants, with the same sign
/// convention as a polygon ring.
pub fn area_triangle<T: Scalar>(triangle: &Triangle<T>) -> (r: T)
    ensures
        r == spec_triangle_area(*triangle),
{
    let l0 = Line::new(triangle.0, triangle.1);
    let l1 = Line::new(triangle.1, triangle.2);
    let l2 = Line::new(triangle.2, triangle.0);
    T::zero().plus(l0.determinant()).plus(l1.determinant()).plus(l2.determinant()).over(
        T::one().plus(T::one()),
    )
}

/// Signed planar area of a shape. The contract ties the result to the
/// shape's spec-level area, a pure function of its coordinates alone, so
/// repeated calls on one value always agree.
pub trait Area<T: Scalar> {
    /// The shape's signed area, as a mathematical function of its value.
    spec fn spec_area(&self) -> T;

    fn area(&self) -> (r: T)
        ensures
            r == self.spec_area(),
    ;
}

impl<T: Scalar> Area<T> for Point<T> {
    open spec fn spec_area(&self) -> T {
        T::spec_zero()
    }

    fn area(&self) -> (r: T) {
        T::zero()
    }
}

impl<T: Scalar> Area<T> for Line<T> {
    open spec fn spec_area(&self) -> T {
        T::spec_zero()
    }

    fn area(&self) -> (r: T) {
        T::zero()
    }
}

impl<T: Scalar> Area<T> for LineString<T> {
    open spec fn spec_area(&self) -> T {
        T::spec_zero()
    }

    fn area(&self) -> (r: T) {
        T::zero()
    }
}

impl<T: Scalar> Area<T> for crate::geometry::MultiPoint<T> {
    open spec fn spec_area(&self) -> T {
        T::spec_zero()
    }

    fn area(&self) -> (r: T) {
        T::zero()
    }
}

impl<T: Scalar> Area<T> for crate::geometry::MultiLineString<T> {
    open spec fn spec_area(&self) -> T {
        T::spec_zero()
    }

    fn area(&self) -> (r: T) {
        T::zero()
    }
}

impl<T: Scalar> Area<T> for Polygon<T> {
    open spec fn spec_area(&self) -> T {
        spec_polygon_area(*self)
    }

    fn area(&self) -> (r: T) {
        area_polygon(self)
    }
}

impl<T: Scalar> Area<T> for MultiPolygon<T> {
    open spec fn spec_area(&self) -> T {
        spec_multi_polygon_area(*self)
    }

    fn area(&self) -> (r: T) {
        area_multi_polygon(self)
    }
}

impl<T: Scalar> Area<T> for GeometryCollection<T> {
    open spec fn spec_area(&self) -> T {
        spec_collection_area(*self)
    }

    fn area(&self) -> (r: T) {
        area_geometry_collection(self)
    }
}

impl<T: Scalar> Area<T> for Rect<T> {
    open spec fn spec_area(&self) -> T {
        spec_rect_area(*self)
    }

    fn area(&self) -> (r: T) {
        area_rect(self)
    }
}

impl<T: Scalar> Area<T> for Triangle<T> {
    open spec fn spec_area(&self) -> T {
        spec_triangle_area(*self)
    }

    fn area(&self) -> (r: T) {
        area_triangle(self)
    }
}

impl<T: Scalar> Area<T> for Geometry<T> {
    open spec fn spec_area(&self) -> T {
        spec_geometry_area(*self)
    }

    fn area(&self) -> (r: T) {
        area_geometry(self)
    }
}

impl<'a, T: Scalar> Area<T> for GeometryCow<'a, T> {
    open spec fn spec_area(&self) -> T {
        spec_cow_area(*self)
    }

    fn area(&self) -> (r: T) {
        match self {
            GeometryCow::Point(_) => T::zero(),
            GeometryCow::Line(_) => T::zero(),
            GeometryCow::LineString(_) => T::zero(),
            GeometryCow::Polygon(h) => area_polygon(h.value()),
            GeometryCow::MultiPoint(_) => T::zero(),
            GeometryCow::MultiLineString(_) => T::zero(),
            GeometryCow::MultiPolygon(h) => area_multi_polygon(h.value()),
            GeometryCow::GeometryCollection(h) => area_geometry_collection(h.value()),
            GeometryCow::Rect(h) => area_rect(h.value()),
            GeometryCow::Triangle(h) => area_triangle(h.value()),
        }
    }
}

/// A point wrapper that hands its shape to the dispatcher by reference.
pub struct NewPoint<T>(pub Point<T>);

impl<T: Scalar> Area<T> for NewPoint<T> {
    open spec fn spec_area(&self) -> T {
        T::spec_zero()
    }

    fn area(&self) -> (r: T) {
        let cow = GeometryCow::Point(Held::Borrowed(&self.0));
        cow.area()
    }
}

/// A pair of scalars that materializes an owned point for the dispatcher.
pub struct NewPoint2<T>(pub T, pub T);

impl<T: Scalar> Area<T> for NewPoint2<T> {
    open spec fn spec_area(&self) -> T {
        T::spec_zero()
    }

    fn area(&self) -> (r: T) {
        let cow = GeometryCow::Point(Held::Owned(Point::new(self.0, self.1)));
        cow.area()
    }
}

/// One shoelace edge term over unbounded integers: the determinant of two
/// integer coordinate pairs.
pub open spec fn cross_int(a: (int, int), b: (int, int)) -> int {
    a.0 * b.1 - a.1 * b.0
}

/// A ring's exact coordinates, as unbounded integer pairs.
pub open spec fn ring_ints(cs: Seq<Coordinate<Exact>>) -> Seq<(int, int)> {
    cs.map_values(|c: Coordinate<Exact>| (c.x.0 as int, c.y.0 as int))
}

/// Left fold of the first `n` integer shoelace terms of `cs`.
pub open spec fn shoelace_upto(cs: Seq<(int, int)>, n: int) -> int
    decreases n,
{
    if n <= 0 {
        0
    } else {
        shoelace_upto(cs, n - 1) + cross_int(cs[n - 1], cs[n])
    }
}

/// Sum of the integer shoelace terms of the edges from `m` on.
pub open spec fn shoelace_from(cs: Seq<(int, int)>, m: int) -> int
    decreases cs.len() - m,
{
    if m < 0 || m >= cs.len() - 1 {
        0
    } else {
        cross_int(cs[m], cs[m + 1]) + shoelace_from(cs, m + 1)
    }
}

/// A suffix of the shoelace terms is the whole sum less the matching
/// prefix.
proof fn lemma_shoelace_split(cs: Seq<(int, int)>, m: int)
    requires
        0 <= m <= cs.len() - 1,
    ensures
        shoelace_from(cs, m) == shoelace_upto(cs, cs.len() - 1) - shoelace_upto(cs, m),
    decreases cs.len() - m,
{
    if m < cs.len() - 1 {
        lemma_shoelace_split(cs, m + 1);
    }
}

/// A prefix of the reversed ring's shoelace terms is the negated matching
/// suffix of the original's.
proof fn lemma_shoelace_reverse_upto(cs: Seq<(int, int)>, k: int)
    requires
        0 <= k <= cs.len() - 1,
    ensures
        shoelace_upto(cs.reverse(), k) == 0 - shoelace_from(cs, cs.len() - 1 - k),
    decreases k,
{
    let n = cs.len() as int;
    if k > 0 {
        lemma_shoelace_reverse_upto(cs, k - 1);
        assert(cs.reverse()[k - 1] == cs[n - k]);
        assert(cs.reverse()[k] == cs[n - 1 - k]);
        let a = cs[n - 1 - k];
        let b = cs[n - k];
        assert(b.0 * a.1 - b.1 * a.0 == 0 - (a.0 * b.1 - a.1 * b.0)) by (nonlinear_arith);
    }
}

/// The integer shoelace sum of a reversed ring is the negation of the
/// original ring's.
pub proof fn lemma_shoelace_reverse(cs: Seq<(int, int)>)
    ensures
        shoelace_upto(cs.reverse(), cs.len() - 1) == 0 - shoelace_upto(cs, cs.len() - 1),
{
    if cs.len() > 0 {
        lemma_shoelace_reverse_upto(cs, cs.len() - 1);
        lemma_shoelace_split(cs, 0);
    }
}

/// Every coordinate of the ring bounded by `b` in magnitude.
pub open spec fn ring_in_range(cs: Seq<Coordinate<Exact>>, b: int) -> bool {
    forall|i: int|
        0 <= i < cs.len() ==> -b <= (#[trigger] cs[i]).x.0 <= b && -b <= cs[i].y.0 <= b
}

/// Under coordinate bounds that keep every shoelace term and partial sum
/// representable, the exact scalar's wrapping fold computes the unbounded
/// integer shoelace sum.
proof fn lemma_exact_fold_matches(cs: Seq<Coordinate<Exact>>, b: int, k: int)
    requires
        0 <= b,
        0 <= k <= cs.len() - 1,
        ring_in_range(cs, b),
        2 * b * b * (cs.len() - 1) <= i64::MAX,
    ensures
        twice_ring_area_upto(cs, k).0 == shoelace_upto(ring_ints(cs), k),
        -(2 * b * b * k) <= shoelace_upto(ring_ints(cs), k) <= 2 * b * b * k,
    decreases k,
{
    let bb = b * b;
    assert(2 * bb * k <= 2 * bb * (cs.len() - 1)) by (nonlinear_arith)
        requires
            0 <= bb,
            k <= cs.len() - 1,
    ;
    if k > 0 {
        lemma_exact_fold_matches(cs, b, k - 1);
        assert(2 * bb * (k - 1) <= 2 * bb * k) by (nonlinear_arith)
            requires
                0 <= bb,
                1 <= k,
        ;
        assert(2 * bb * 1 <= 2 * bb * k) by (nonlinear_arith)
            requires
                0 <= bb,
                1 <= k,
        ;
        let x1 = cs[k - 1].x.0 as int;
        let y1 = cs[k - 1].y.0 as int;
        let x2 = cs[k].x.0 as int;
        let y2 = cs[k].y.0 as int;
        assert(-b <= x1 <= b && -b <= y1 <= b);
        assert(-b <= x2 <= b && -b <= y2 <= b);
        assert(-bb <= x1 * y2 <= bb) by (nonlinear_arith)
            requires
                0 <= b,
                bb == b * b,
                -b <= x1 <= b,
                -b <= y2 <= b,
        ;
        assert(-bb <= y1 * x2 <= bb) by (nonlinear_arith)
            requires
                0 <= b,
                bb == b * b,
                -b <= y1 <= b,
                -b <= x2 <= b,
        ;
        assert(bb <= i64::MAX) by (nonlinear_arith)
            requires
                0 <= bb,
                bb == b * b,
                2 * b * b * (cs.len() - 1) <= i64::MAX,
                1 <= cs.len() - 1,
        ;
        crate::scalar::lemma_signed_crop_exact(x1 * y2);
        crate::scalar::lemma_signed_crop_exact(y1 * x2);
        assert(ring_ints(cs)[k - 1] == (x1, y1));
        assert(ring_ints(cs)[k] == (x2, y2));
        assert(2 * b * b * (k - 1) == 2 * bb * (k - 1)) by (nonlinear_arith)
            requires
                bb == b * b,
        ;
        assert(2 * b * b * k == 2 * bb * k) by (nonlinear_arith)
            requires
                bb == b * b,
        ;
        assert(2 * b * b * (cs.len() - 1) == 2 * bb * (cs.len() - 1)) by (nonlinear_arith)
            requires
                bb == b * b,
        ;
        assert(2 * bb * k == 2 * bb * (k - 1) + 2 * bb) by (nonlinear_arith);
        let prev = shoelace_upto(ring_ints(cs), k - 1);
        let cross = cross_int(ring_ints(cs)[k - 1], ring_ints(cs)[k]);
        assert(cross == x1 * y2 - y1 * x2);
        assert(-(2 * bb) <= cross <= 2 * bb);
        assert(-(2 * bb * (k - 1)) <= prev <= 2 * bb * (k - 1));
        assert(i64::MIN <= prev + cross <= i64::MAX);
        assert(shoelace_upto(ring_ints(cs), k) == prev + cross);
        assert(twice_ring_area_upto(cs, k) == twice_ring_area_upto(cs, k - 1).spec_plus(
            edge_cross(cs[k - 1], cs[k]),
        ));
        assert(edge_cross(cs[k - 1], cs[k]).0 == cross);
    }
}

/// Halving and then negating, in the exact scalar, is halving the negated
/// value: truncation toward zero is symmetric about zero.
proof fn lemma_exact_half_of_negation(p: Exact, q: Exact)
    requires
        q.0 as int == 0 - p.0 as int,
    ensures
        q.spec_over(Exact::spec_one().spec_plus(Exact::spec_one())) == Exact::spec_zero().spec_minus(
            p.spec_over(Exact::spec_one().spec_plus(Exact::spec_one())),
        ),
{
    let two = Exact::spec_one().spec_plus(Exact::spec_one());
    assert(two.0 == 2);
    let ap = vstd::math::abs(p.0 as int) as int;
    assert(vstd::math::abs(q.0 as int) as int == ap);
    crate::scalar::lemma_signed_crop_exact(ap / 2);
    assert(0 <= ap / 2 <= ap) by {
        vstd::arithmetic::div_mod::lemma_div_nonincreasing(ap, 2);
        vstd::arithmetic::div_mod::lemma_div_pos_is_pos(ap, 2);
    }
}

/// Law: reversing the vertex order of a closed exterior ring negates its
/// signed area, for exact coordinates bounded tightly enough that no
/// shoelace term or partial sum leaves the representable range.
pub proof fn lemma_reverse_ring_negates_area(
    ls: LineString<Exact>,
    rev: LineString<Exact>,
    b: int,
)
    requires
        rev.0@ == ls.0@.reverse(),
        0 <= b,
        ring_in_range(ls.0@, b),
        2 * b * b * (ls.0@.len() - 1) <= i64::MAX,
    ensures
        spec_linestring_area(rev) == Exact::spec_zero().spec_minus(spec_linestring_area(ls)),
{
    let n = ls.0@.len() as int;
    assert(rev.0@.len() == n);
    if n < 3 {
        assert(spec_twice_ring_area(ls.0@) == Exact::spec_zero());
        assert(spec_twice_ring_area(rev.0@) == Exact::spec_zero());
        lemma_exact_half_of_negation(Exact(0i64), Exact(0i64));
    } else {
        assert(ring_in_range(rev.0@, b)) by {
            assert forall|i: int| 0 <= i < n
                implies -b <= (#[trigger] rev.0@[i]).x.0 <= b && -b <= rev.0@[i].y.0 <= b by {
                assert(rev.0@[i] == ls.0@[n - 1 - i]);
            }
        }
        lemma_exact_fold_matches(ls.0@, b, n - 1);
        lemma_exact_fold_matches(rev.0@, b, n - 1);
        assert(ring_ints(rev.0@) =~= ring_ints(ls.0@).reverse());
        lemma_shoelace_reverse(ring_ints(ls.0@));
        lemma_exact_half_of_negation(spec_twice_ring_area(ls.0@), spec_twice_ring_area(rev.0@));
    }
}

/// Law: a polygon without holes whose exterior ring has too few vertices to
/// enclose anything — none, one, or two — has area exactly zero in the
/// exact scalar.
pub proof fn lemma_degenerate_polygon_area_zero(p: Polygon<Exact>)
    requires
        p.exterior.0@.len() <= 2,
        p.interiors@.len() == 0,
    ensures
        spec_polygon_area(p) == Exact::spec_zero(),
{
    assert(spec_twice_ring_area(p.exterior.0@) == Exact::spec_zero());
    lemma_exact_half_of_negation(Exact(0i64), Exact(0i64));
    assert(spec_polygon_area(p) == spec_linestring_area(p.exterior));
}

/// Law: `area` is repeatable — geometry is immutable value data and the
/// contract of `area` ties every call's result to the shape's spec-level
/// area, so any two results computed from the same shape are equal.
pub proof fn lemma_area_repeatable<T: Scalar, S: Area<T>>(s: &S, r1: T, r2: T)
    requires
        r1 == s.spec_area(),
        r2 == s.spec_area(),
    ensures
        r1 == r2,
{
}

/// Exercises both dispatch wrappings on a concrete scalar: wrapping a shape
/// by reference and materializing one by value, with repeated calls agreeing
/// each time.
pub fn foo() {
    let n = NewPoint(Point::new(Exact(1), Exact(1)));
    let a = n.area();
    let b = n.area();
    assert(a == b);

    let n = NewPoint2(Exact(1), Exact(1));
    let a = n.area();
    let b = n.area();
    assert(a == b);
}

} // verus!
