use geo::area::{foo, Area};
use geo::containment::{line_string_contains_point, point_contains_point};
use geo::distance::{
    line_euclidean_length, line_segment_distance, point_line_euclidean_distance,
    point_line_string_euclidean_distance,
};
use geo::geometry::{
    Coordinate, Geometry, GeometryCollection, Line, LineString, MultiPolygon, Point, Polygon, Rect,
    Triangle,
};
use geo::scalar::{Exact, MetricScalar, Scalar};

#[derive(Clone, Copy, PartialEq, Debug)]
struct F32(f32);

impl Scalar for F32 {
    fn zero() -> Self {
        F32(0.0)
    }
    fn one() -> Self {
        F32(1.0)
    }
    fn plus(self, o: Self) -> Self {
        F32(self.0 + o.0)
    }
    fn minus(self, o: Self) -> Self {
        F32(self.0 - o.0)
    }
    fn times(self, o: Self) -> Self {
        F32(self.0 * o.0)
    }
    fn over(self, o: Self) -> Self {
        F32(self.0 / o.0)
    }
}

#[derive(Clone, Copy, PartialEq, Debug)]
struct F64(f64);

impl Scalar for F64 {
    fn zero() -> Self {
        F64(0.0)
    }
    fn one() -> Self {
        F64(1.0)
    }
    fn plus(self, o: Self) -> Self {
        F64(self.0 + o.0)
    }
    fn minus(self, o: Self) -> Self {
        F64(self.0 - o.0)
    }
    fn times(self, o: Self) -> Self {
        F64(self.0 * o.0)
    }
    fn over(self, o: Self) -> Self {
        F64(self.0 / o.0)
    }
}

impl MetricScalar for F64 {
    fn eqv(self, o: Self) -> bool {
        self.0 == o.0
    }
    fn le(self, o: Self) -> bool {
        self.0 <= o.0
    }
    fn lt(self, o: Self) -> bool {
        self.0 < o.0
    }
    fn abs_val(self) -> Self {
        F64(self.0.abs())
    }
    fn min_with(self, o: Self) -> Self {
        F64(self.0.min(o.0))
    }
    fn max_with(self, o: Self) -> Self {
        F64(self.0.max(o.0))
    }
    fn hypot(self, o: Self) -> Self {
        F64(self.0.hypot(o.0))
    }
    fn greatest() -> Self {
        F64(f64::MAX)
    }
    fn near_zero(self) -> bool {
        (self.0 as f32).abs() <= f32::EPSILON
    }
}

fn c32(x: f32, y: f32) -> Coordinate<F32> {
    Coordinate { x: F32(x), y: F32(y) }
}

fn c64(x: f64, y: f64) -> Coordinate<F64> {
    Coordinate { x: F64(x), y: F64(y) }
}

fn ce(x: i64, y: i64) -> Coordinate<Exact> {
    Coordinate { x: Exact(x), y: Exact(y) }
}

fn ring64(pts: &[(f64, f64)]) -> LineString<F64> {
    LineString(pts.iter().map(|&(x, y)| c64(x, y)).collect())
}

#[test]
fn area_empty_polygon_test() {
    let poly: Polygon<F32> = Polygon::new(LineString(vec![]), vec![]);
    assert_eq!(poly.area(), F32(0.));
}

#[test]
fn area_one_point_polygon_test() {
    let poly = Polygon::new(LineString(vec![c64(1., 0.)]), vec![]);
    assert_eq!(poly.area(), F64(0.));
}

#[test]
fn area_polygon_test() {
    let polygon = Polygon::new(
        ring64(&[(0., 0.), (5., 0.), (5., 6.), (0., 6.), (0., 0.)]),
        vec![],
    );
    assert_eq!(polygon.area(), F64(30.));
}

#[test]
fn rectangle_test() {
    let rect1: Rect<F32> = Rect::new(c32(10., 30.), c32(20., 40.));
    assert_eq!(rect1.area(), F32(100.));

    let rect2: Rect<Exact> = Rect::new(ce(10, 30), ce(20, 40));
    assert_eq!(rect2.area(), Exact(100));
}

#[test]
fn area_polygon_inner_test() {
    let poly = Polygon::new(
        ring64(&[(0., 0.), (10., 0.), (10., 10.), (0., 10.), (0., 0.)]),
        vec![
            ring64(&[(1., 1.), (2., 1.), (2., 2.), (1., 2.), (1., 1.)]),
            ring64(&[(5., 5.), (6., 5.), (6., 6.), (5., 6.), (5., 5.)]),
        ],
    );
    assert_eq!(poly.area(), F64(98.));
}

#[test]
fn area_multipolygon_test() {
    let poly0 = Polygon::new(
        ring64(&[(0., 0.), (10., 0.), (10., 10.), (0., 10.), (0., 0.)]),
        vec![],
    );
    let poly1 = Polygon::new(
        ring64(&[(1., 1.), (2., 1.), (2., 2.), (1., 2.), (1., 1.)]),
        vec![],
    );
    let poly2 = Polygon::new(
        ring64(&[(5., 5.), (6., 5.), (6., 6.), (5., 6.), (5., 5.)]),
        vec![],
    );
    let mpoly = MultiPolygon(vec![poly0, poly1, poly2]);
    assert_eq!(mpoly.area(), F64(102.));
    assert_eq!(mpoly.area(), F64(102.));
}

#[test]
fn area_line_test() {
    let line1 = Line::new(c64(0.0, 0.0), c64(1.0, 1.0));
    assert_eq!(line1.area(), F64(0.));
}

#[test]
fn area_triangle_test() {
    let triangle = Triangle(c64(0.0, 0.0), c64(1.0, 0.0), c64(0.0, 1.0));
    assert_eq!(triangle.area(), F64(0.5));

    let triangle = Triangle(c64(0.0, 0.0), c64(0.0, 1.0), c64(1.0, 0.0));
    assert_eq!(triangle.area(), F64(-0.5));
}

#[test]
fn reversed_ring_negates_area() {
    let forward = Polygon::new(
        ring64(&[(0., 0.), (5., 0.), (5., 6.), (0., 6.), (0., 0.)]),
        vec![],
    );
    let backward = Polygon::new(
        ring64(&[(0., 0.), (0., 6.), (5., 6.), (5., 0.), (0., 0.)]),
        vec![],
    );
    assert_eq!(forward.area(), F64(30.));
    assert_eq!(backward.area(), F64(-30.));

    let fwd = Polygon::new(
        LineString(vec![ce(0, 0), ce(5, 0), ce(5, 6), ce(0, 6), ce(0, 0)]),
        vec![],
    );
    let bwd = Polygon::new(
        LineString(vec![ce(0, 0), ce(0, 6), ce(5, 6), ce(5, 0), ce(0, 0)]),
        vec![],
    );
    assert_eq!(fwd.area(), Exact(30));
    assert_eq!(bwd.area(), Exact(-30));
}

#[test]
fn degenerate_polygons_have_zero_exact_area() {
    let empty: Polygon<Exact> = Polygon::new(LineString(vec![]), vec![]);
    assert_eq!(empty.area(), Exact(0));
    let single = Polygon::new(LineString(vec![ce(7, -3)]), vec![]);
    assert_eq!(single.area(), Exact(0));
    let pair = Polygon::new(LineString(vec![ce(7, -3), ce(2, 4)]), vec![]);
    assert_eq!(pair.area(), Exact(0));
}

#[test]
fn geometry_collection_area_sums_members() {
    let square = Polygon::new(
        ring64(&[(0., 0.), (10., 0.), (10., 10.), (0., 10.), (0., 0.)]),
        vec![],
    );
    let tri = Triangle(c64(0.0, 0.0), c64(1.0, 0.0), c64(0.0, 1.0));
    let nested = GeometryCollection(vec![Geometry::Triangle(tri)]);
    let collection = GeometryCollection(vec![
        Geometry::Polygon(square),
        Geometry::Point(Point::new(F64(3.), F64(4.))),
        Geometry::GeometryCollection(nested),
    ]);
    assert_eq!(collection.area(), F64(100.5));
}

#[test]
fn dispatch_wrappers_run() {
    foo();
}

#[test]
fn degenerate_segment_distance_is_point_distance() {
    let p = Point::new(F64(0.), F64(0.));
    let s = Point::new(F64(3.), F64(4.));
    assert_eq!(line_segment_distance(p, s, s), F64(5.0));

    let pe = Point::new(Exact(0), Exact(0));
    let se = Point::new(Exact(3), Exact(4));
    assert_eq!(line_segment_distance(pe, se, se), Exact(5));
}

#[test]
fn projection_before_start_uses_start_distance() {
    let p = Point::new(F64(-3.), F64(4.));
    let s = Point::new(F64(0.), F64(0.));
    let e = Point::new(F64(10.), F64(0.));
    assert_eq!(line_segment_distance(p, s, e), F64(5.0));
}

#[test]
fn projection_past_end_uses_end_distance() {
    let p = Point::new(F64(13.), F64(4.));
    let s = Point::new(F64(0.), F64(0.));
    let e = Point::new(F64(10.), F64(0.));
    assert_eq!(line_segment_distance(p, s, e), F64(5.0));
}

#[test]
fn interior_projection_uses_perpendicular_distance() {
    let p = Point::new(F64(5.), F64(4.));
    let s = Point::new(F64(0.), F64(0.));
    let e = Point::new(F64(10.), F64(0.));
    assert_eq!(line_segment_distance(p, s, e), F64(4.0));
    let l = Line::new(c64(0., 0.), c64(10., 0.));
    assert_eq!(point_line_euclidean_distance(p, l), F64(4.0));
}

#[test]
fn segment_length_is_euclidean() {
    let l = Line::new(c64(0., 0.), c64(3., 4.));
    assert_eq!(line_euclidean_length(l), F64(5.0));
    let le = Line::new(ce(0, 0), ce(1, 1));
    assert_eq!(line_euclidean_length(le), Exact(1));
}

#[test]
fn vertex_match_gives_zero_linestring_distance() {
    let ls = ring64(&[(0., 0.), (10., 0.), (10., 10.)]);
    let p = Point::new(F64(10.), F64(0.));
    assert_eq!(point_line_string_euclidean_distance(p, &ls), F64(0.0));
}

#[test]
fn axis_aligned_interior_point_gives_zero_distance() {
    let ls = ring64(&[(0., 0.), (10., 0.), (10., 10.)]);
    let horizontal = Point::new(F64(5.), F64(0.));
    assert_eq!(
        point_line_string_euclidean_distance(horizontal, &ls),
        F64(0.0)
    );
    let vertical = Point::new(F64(10.), F64(5.));
    assert_eq!(point_line_string_euclidean_distance(vertical, &ls), F64(0.0));
    assert!(line_string_contains_point(&ls, horizontal));
    assert!(line_string_contains_point(&ls, vertical));
}

#[test]
fn diagonal_interior_point_is_not_contained() {
    let ls = ring64(&[(0., 0.), (10., 10.)]);
    let p = Point::new(F64(5.), F64(5.));
    assert!(!line_string_contains_point(&ls, p));
    assert_eq!(point_line_string_euclidean_distance(p, &ls), F64(0.0));
}

#[test]
fn empty_linestring_has_zero_distance_and_no_points() {
    let ls: LineString<F64> = LineString(vec![]);
    let p = Point::new(F64(5.), F64(5.));
    assert!(!line_string_contains_point(&ls, p));
    assert_eq!(point_line_string_euclidean_distance(p, &ls), F64(0.0));
}

#[test]
fn single_coordinate_linestring_matches_by_tolerance() {
    let ls = LineString(vec![c64(2., 3.)]);
    let near = Point::new(F64(2.), F64(3.));
    assert!(line_string_contains_point(&ls, near));
    assert_eq!(point_line_string_euclidean_distance(near, &ls), F64(0.0));
    let far = Point::new(F64(9.), F64(9.));
    assert!(!line_string_contains_point(&ls, far));
    assert_eq!(
        point_line_string_euclidean_distance(far, &ls),
        F64(f64::MAX)
    );
}

#[test]
fn point_coincidence_uses_reduced_precision() {
    let a = Point::new(F64(1.), F64(1.));
    assert!(point_contains_point(a, a));
    let tiny = Point::new(F64(1.), F64(1. + 1e-9));
    assert!(point_contains_point(a, tiny));
    let apart = Point::new(F64(1.), F64(2.));
    assert!(!point_contains_point(a, apart));

    let e0 = Point::new(Exact(4), Exact(4));
    assert!(point_contains_point(e0, e0));
    assert!(!point_contains_point(e0, Point::new(Exact(4), Exact(5))));
}
