//! The planar shape types the engines measure: coordinates, points, lines,
//! linestrings, polygons with holes, multi-shapes, axis-aligned rectangles,
//! triangles, heterogeneous collections, and the tagged union used to
//! dispatch an algorithm over all of them.
//!
//! All shapes are pure immutable value data; nothing here validates geometric
//! preconditions (closed rings, `min <= max`), as the measurement contracts
//! are stated for arbitrary coordinates.

use vstd::prelude::*;

use crate::scalar::Scalar;

verus! {

/// A position in the plane, a pair of scalars.
#[derive(Clone, Copy)]
pub struct Coordinate<T> {
    pub x: T,
    pub y: T,
}

/// A single location, wrapping one coordinate.
#[derive(Clone, Copy)]
pub struct Point<T>(pub Coordinate<T>);

impl<T: Copy> Point<T> {
    pub fn new(x: T, y: T) -> (r: Self)
        ensures
            r.0 == (Coordinate { x, y }),
    {
        Point(Coordinate { x, y })
    }

    pub fn x(&self) -> (r: T)
        ensures
            r == self.0.x,
    {
        self.0.x
    }

    pub fn y(&self) -> (r: T)
        ensures
            r == self.0.y,
    {
        self.0.y
    }
}

/// A directed segment between two coordinates; degenerate when both ends
/// coincide.
#[derive(Clone, Copy)]
pub struct Line<T> {
    pub start: Coordinate<T>,
    pub end: Coordinate<T>,
}

impl<T: Copy> Line<T> {
    pub fn new(start: Coordinate<T>, end: Coordinate<T>) -> (r: Self)
        ensures
            r.start == start,
            r.end == end,
    {
        Line { start, end }
    }

    pub fn start_point(&self) -> (r: Point<T>)
        ensures
            r.0 == self.start,
    {
        Point(self.start)
    }

    pub fn end_point(&self) -> (r: Point<T>)
        ensures
            r.0 == self.end,
    {
        Point(self.end)
    }
}

impl<T: Scalar> Line<T> {
    /// The run of the segment, in T's arithmetic.
    pub fn dx(&self) -> (r: T)
        ensures
            r == self.end.x.spec_minus(self.start.x),
    {
        self.end.x.minus(self.start.x)
    }

    /// The rise of the segment, in T's arithmetic.
    pub fn dy(&self) -> (r: T)
        ensures
            r == self.end.y.spec_minus(self.start.y),
    {
        self.end.y.minus(self.start.y)
    }

    /// The 2x2 determinant of the segment's endpoints, the shoelace
    /// contribution of one ring edge.
    pub fn determinant(&self) -> (r: T)
        ensures
            r == crate::area::edge_cross(self.start, self.end),
    {
        self.start.x.times(self.end.y).minus(self.start.y.times(self.end.x))
    }
}

/// An ordered sequence of coordinates; may be empty, a single point, open,
/// or closed (first equals last). Its segments are the consecutive pairs.
#[derive(Clone)]
pub struct LineString<T>(pub Vec<Coordinate<T>>);

/// One exterior ring plus interior rings (holes). Rings are taken as the
/// caller hands them over: closedness and non-self-intersection are assumed,
/// never checked.
#[derive(Clone)]
pub struct Polygon<T> {
    pub exterior: LineString<T>,
    pub interiors: Vec<LineString<T>>,
}

impl<T> Polygon<T> {
    pub fn new(exterior: LineString<T>, interiors: Vec<LineString<T>>) -> (r: Self)
        ensures
            r.exterior == exterior,
            r.interiors == interiors,
    {
        Polygon { exterior, interiors }
    }

    pub fn exterior(&self) -> (r: &LineString<T>)
        ensures
            r == &self.exterior,
    {
        &self.exterior
    }

    pub fn interiors(&self) -> (r: &Vec<LineString<T>>)
        ensures
            r == &self.interiors,
    {
        &self.interiors
    }
}

/// An ordered sequence of points.
#[derive(Clone)]
pub struct MultiPoint<T>(pub Vec<Point<T>>);

/// An ordered sequence of linestrings.
#[derive(Clone)]
pub struct MultiLineString<T>(pub Vec<LineString<T>>);

/// An ordered sequence of independent polygons; they may overlap, and area
/// is their plain sum, not a union.
#[derive(Clone)]
pub struct MultiPolygon<T>(pub Vec<Polygon<T>>);

/// An axis-aligned box given by its component-wise minimum and maximum
/// corners. A violated `min <= max` only yields a consistent negative
/// width or height, never a fault.
#[derive(Clone, Copy)]
pub struct Rect<T> {
    pub min: Coordinate<T>,
    pub max: Coordinate<T>,
}

impl<T: Copy> Rect<T> {
    pub fn new(min: Coordinate<T>, max: Coordinate<T>) -> (r: Self)
        ensures
            r.min == min,
            r.max == max,
    {
        Rect { min, max }
    }
}

impl<T: Scalar> Rect<T> {
    pub fn width(&self) -> (r: T)
        ensures
            r == self.max.x.spec_minus(self.min.x),
    {
        self.max.x.minus(self.min.x)
    }

    pub fn height(&self) -> (r: T)
        ensures
            r == self.max.y.spec_minus(self.min.y),
    {
        self.max.y.minus(self.min.y)
    }
}

/// Exactly three coordinates, ordered; the sign of its area follows the
/// vertex order.
#[derive(Clone, Copy)]
pub struct Triangle<T>(pub Coordinate<T>, pub Coordinate<T>, pub Coordinate<T>);

/// An ordered sequence of arbitrary shapes, possibly nested.
pub struct GeometryCollection<T>(pub Vec<Geometry<T>>);

/// The closed tagged union of every supported shape kind. Each algorithm
/// matches on it exhaustively, so adding a kind forces every algorithm to
/// handle it.
pub enum Geometry<T> {
    Point(Point<T>),
    Line(Line<T>),
    LineString(LineString<T>),
    Polygon(Polygon<T>),
    MultiPoint(MultiPoint<T>),
    MultiLineString(MultiLineString<T>),
    MultiPolygon(MultiPolygon<T>),
    GeometryCollection(GeometryCollection<T>),
    Rect(Rect<T>),
    Triangle(Triangle<T>),
}

/// A shape held either by reference or by value, so a dispatch site can wrap
/// an existing shape without copying it, yet can also materialize one on the
/// fly.
pub enum Held<'a, S> {
    Borrowed(&'a S),
    Owned(S),
}

impl<'a, S> Held<'a, S> {
    /// The held shape, whichever way it is held.
    pub open spec fn spec_value(&self) -> S {
        match *self {
            Held::Borrowed(b) => *b,
            Held::Owned(ref o) => *o,
        }
    }

    pub fn value(&self) -> (r: &S)
        ensures
            *r == self.spec_value(),
    {
        match self {
            Held::Borrowed(b) => b,
            Held::Owned(o) => o,
        }
    }
}

/// The dispatch union over shapes that are each held borrowed-or-owned; the
/// entry point the measurement engines pattern-match on. It is never
/// persisted.
pub enum GeometryCow<'a, T> {
    Point(Held<'a, Point<T>>),
    Line(Held<'a, Line<T>>),
    LineString(Held<'a, LineString<T>>),
    Polygon(Held<'a, Polygon<T>>),
    MultiPoint(Held<'a, MultiPoint<T>>),
    MultiLineString(Held<'a, MultiLineString<T>>),
    MultiPolygon(Held<'a, MultiPolygon<T>>),
    GeometryCollection(Held<'a, GeometryCollection<T>>),
    Rect(Held<'a, Rect<T>>),
    Triangle(Held<'a, Triangle<T>>),
}

} // verus!
