//! The geometry model and, for each geometry, the draw calls that render it.
use crate::surface::{Draw, Primitive};
use vstd::prelude::*;

verus! {

/// A position in the plane.
#[derive(Clone, Copy, Debug)]
pub struct Coordinate<T> {
    pub x: T,
    pub y: T,
}

/// A single point.
#[derive(Clone, Copy, Debug)]
pub struct Point<T>(pub Coordinate<T>);

/// A segment from `start` to `end`.
#[derive(Clone, Copy, Debug)]
pub struct Line<T> {
    pub start: Coordinate<T>,
    pub end: Coordinate<T>,
}

/// An ordered sequence of vertices; it may be empty.
#[derive(Debug)]
pub struct LineString<T>(pub Vec<Coordinate<T>>);

/// A polygon: an exterior ring and zero or more interior rings (holes).
#[derive(Debug)]
pub struct Polygon<T> {
    pub exterior: LineString<T>,
    pub interiors: Vec<LineString<T>>,
}

/// An ordered collection of points.
#[derive(Debug)]
pub struct MultiPoint<T>(pub Vec<Point<T>>);

/// An ordered collection of line strings.
#[derive(Debug)]
pub struct MultiLineString<T>(pub Vec<LineString<T>>);

/// An ordered collection of polygons.
#[derive(Debug)]
pub struct MultiPolygon<T>(pub Vec<Polygon<T>>);

/// An ordered collection of geometries of any kind.
#[derive(Debug)]
pub struct GeometryCollection<T>(pub Vec<Geometry<T>>);

/// Any one geometry.
#[derive(Debug)]
pub enum Geometry<T> {
    Point(Point<T>),
    Line(Line<T>),
    LineString(LineString<T>),
    Polygon(Polygon<T>),
    MultiPoint(MultiPoint<T>),
    MultiLineString(MultiLineString<T>),
    MultiPolygon(MultiPolygon<T>),
    GeometryCollection(GeometryCollection<T>),
}

/// The x coordinates of `cs`, in order.
pub open spec fn xs_of<T>(cs: Seq<Coordinate<T>>) -> Seq<T> {
    cs.map_values(|c: Coordinate<T>| c.x)
}

/// The y coordinates of `cs`, in order.
pub open spec fn ys_of<T>(cs: Seq<Coordinate<T>>) -> Seq<T> {
    cs.map_values(|c: Coordinate<T>| c.y)
}

/// A line-path call through the vertices `cs`, in order.
pub open spec fn path_draw<T, O>(cs: Seq<Coordinate<T>>, opt: O) -> Draw<T, O> {
    Draw { kind: Primitive::LinePath, xs: xs_of(cs), ys: ys_of(cs), style: opt }
}

/// The calls that render each point of `s` in turn.
pub open spec fn points_draws<T, O>(s: Seq<Point<T>>, opt: O) -> Seq<Draw<T, O>>
    decreases s.len(),
{
    if s.len() == 0 {
        Seq::empty()
    } else {
        points_draws(s.drop_last(), opt) + s.last().draws(opt)
    }
}

/// The calls that render each line string of `s` in turn.
pub open spec fn line_strings_draws<T, O>(s: Seq<LineString<T>>, opt: O) -> Seq<Draw<T, O>>
    decreases s.len(),
{
    if s.len() == 0 {
        Seq::empty()
    } else {
        line_strings_draws(s.drop_last(), opt) + s.last().draws(opt)
    }
}

/// The calls that render each polygon of `s` in turn.
pub open spec fn polygons_draws<T, O>(s: Seq<Polygon<T>>, opt: O) -> Seq<Draw<T, O>>
    decreases s.len(),
{
    if s.len() == 0 {
        Seq::empty()
    } else {
        polygons_draws(s.drop_last(), opt) + s.last().draws(opt)
    }
}

/// The calls that render each geometry of `s` in turn.
pub open spec fn geometries_draws<T, O>(s: Seq<Geometry<T>>, opt: O) -> Seq<Draw<T, O>>
    decreases s,
{
    if s.len() == 0 {
        Seq::empty()
    } else {
        geometries_draws(s.subrange(0, s.len() - 1), opt) + s[s.len() - 1].draws(opt)
    }
}

impl<T> Coordinate<T> {
    /// One point-set call holding this single position.
    pub open spec fn draws<O>(self, opt: O) -> Seq<Draw<T, O>> {
        seq![Draw { kind: Primitive::PointSet, xs: seq![self.x], ys: seq![self.y], style: opt }]
    }
}

impl<T> Point<T> {
    /// Drawn as its coordinate.
    pub open spec fn draws<O>(self, opt: O) -> Seq<Draw<T, O>> {
        self.0.draws(opt)
    }
}

impl<T> Line<T> {
    /// One line-path call from `start` to `end`.
    pub open spec fn draws<O>(self, opt: O) -> Seq<Draw<T, O>> {
        seq![path_draw(seq![self.start, self.end], opt)]
    }
}

impl<T> LineString<T> {
    /// One line-path call through all vertices, even when there are none.
    pub open spec fn draws<O>(self, opt: O) -> Seq<Draw<T, O>> {
        seq![path_draw(self.0@, opt)]
    }
}

impl<T> Polygon<T> {
    /// Drawn as its exterior ring; the interior rings are not drawn.
    pub open spec fn draws<O>(self, opt: O) -> Seq<Draw<T, O>> {
        self.exterior.draws(opt)
    }
}

impl<T> MultiPoint<T> {
    /// The calls of each point in turn.
    pub open spec fn draws<O>(self, opt: O) -> Seq<Draw<T, O>> {
        points_draws(self.0@, opt)
    }
}

impl<T> MultiLineString<T> {
    /// The calls of each line string in turn.
    pub open spec fn draws<O>(self, opt: O) -> Seq<Draw<T, O>> {
        line_strings_draws(self.0@, opt)
    }
}

impl<T> MultiPolygon<T> {
    /// The calls of each polygon in turn.
    pub open spec fn draws<O>(self, opt: O) -> Seq<Draw<T, O>> {
        polygons_draws(self.0@, opt)
    }
}

impl<T> Geometry<T> {
    /// The calls that render this geometry, by its kind.
    pub open spec fn draws<O>(self, opt: O) -> Seq<Draw<T, O>>
        decreases self,
    {
        match self {
            Geometry::Point(g) => g.draws(opt),
            Geometry::Line(g) => g.draws(opt),
            Geometry::LineString(g) => g.draws(opt),
            Geometry::Polygon(g) => g.draws(opt),
            Geometry::MultiPoint(g) => g.draws(opt),
            Geometry::MultiLineString(g) => g.draws(opt),
            Geometry::MultiPolygon(g) => g.draws(opt),
            Geometry::GeometryCollection(g) => geometries_draws(g.0@, opt),
        }
    }
}

impl<T> GeometryCollection<T> {
    /// The calls of each member in turn.
    pub open spec fn draws<O>(self, opt: O) -> Seq<Draw<T, O>> {
        geometries_draws(self.0@, opt)
    }
}

} // verus!
