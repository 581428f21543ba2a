//! Properties of rendering, proved over the draw calls of each geometry.
use crate::geometry::{
    geometries_draws, line_strings_draws, path_draw, points_draws, polygons_draws, Coordinate,
    Geometry, Line, LineString, Point, Polygon,
};
use crate::surface::{Draw, Primitive};
use vstd::prelude::*;

verus! {

/// Every call of `ds` carries the style `opt`.
pub open spec fn all_styled<T, O>(ds: Seq<Draw<T, O>>, opt: O) -> bool {
    forall|i: int| 0 <= i < ds.len() ==> (#[trigger] ds[i]).style == opt
}

/// A coordinate is drawn by exactly one point-set call holding exactly its
/// own position.
pub proof fn lemma_coordinate_one_marker<T, O>(c: Coordinate<T>, opt: O)
    ensures
        c.draws(opt).len() == 1,
        c.draws(opt)[0].kind == Primitive::PointSet,
        c.draws(opt)[0].xs == seq![c.x],
        c.draws(opt)[0].ys == seq![c.y],
{
}

/// A point is drawn by exactly one point-set call holding exactly its own
/// position.
pub proof fn lemma_point_one_marker<T, O>(p: Point<T>, opt: O)
    ensures
        p.draws(opt).len() == 1,
        p.draws(opt)[0].kind == Primitive::PointSet,
        p.draws(opt)[0].xs == seq![p.0.x],
        p.draws(opt)[0].ys == seq![p.0.y],
{
}

/// A line is drawn by exactly one line-path call with two vertices, the start
/// and then the end.
pub proof fn lemma_line_two_vertices<T, O>(l: Line<T>, opt: O)
    ensures
        l.draws(opt).len() == 1,
        l.draws(opt)[0].kind == Primitive::LinePath,
        l.draws(opt)[0].xs == seq![l.start.x, l.end.x],
        l.draws(opt)[0].ys == seq![l.start.y, l.end.y],
{
    assert(l.draws(opt)[0].xs =~= seq![l.start.x, l.end.x]);
    assert(l.draws(opt)[0].ys =~= seq![l.start.y, l.end.y]);
}

/// A line string of `n` vertices is drawn by exactly one line-path call with
/// `n` vertices, in their original order; with no vertices the call is still
/// made, with empty coordinate lists.
pub proof fn lemma_line_string_in_order<T, O>(ls: LineString<T>, opt: O)
    ensures
        ls.draws(opt).len() == 1,
        ls.draws(opt)[0].kind == Primitive::LinePath,
        ls.draws(opt)[0].xs.len() == ls.0@.len(),
        ls.draws(opt)[0].ys.len() == ls.0@.len(),
        forall|i: int|
            0 <= i < ls.0@.len() ==> ls.draws(opt)[0].xs[i] == (#[trigger] ls.0@[i]).x
                && ls.draws(opt)[0].ys[i] == ls.0@[i].y,
{
}

/// A polygon is drawn by one line-path call through its exterior ring, in
/// order; its interior rings have no influence on what is drawn.
pub proof fn lemma_polygon_exterior_only<T, O>(p: Polygon<T>, q: Polygon<T>, opt: O)
    requires
        p.exterior.0@ == q.exterior.0@,
    ensures
        p.draws(opt) == seq![path_draw(p.exterior.0@, opt)],
        p.draws(opt) == q.draws(opt),
{
}

/// Rendering the polygons of `a` and then those of `b` issues the same calls,
/// in the same order, as rendering the polygons of `a + b`.
pub proof fn lemma_polygons_compose<T, O>(a: Seq<Polygon<T>>, b: Seq<Polygon<T>>, opt: O)
    ensures
        polygons_draws(a + b, opt) == polygons_draws(a, opt) + polygons_draws(b, opt),
    decreases b.len(),
{
    if b.len() == 0 {
        assert(a + b =~= a);
        assert(polygons_draws(a, opt) + polygons_draws(b, opt) =~= polygons_draws(a, opt));
    } else {
        assert((a + b).drop_last() =~= a + b.drop_last());
        lemma_polygons_compose(a, b.drop_last(), opt);
        assert(polygons_draws(a + b, opt) =~= polygons_draws(a, opt) + polygons_draws(b, opt));
    }
}

/// A multi-polygon of `m` polygons issues exactly `m` line-path calls, the
/// `i`-th being the one call that renders its `i`-th polygon alone.
pub proof fn lemma_polygons_one_call_each<T, O>(s: Seq<Polygon<T>>, opt: O)
    ensures
        polygons_draws(s, opt).len() == s.len(),
        forall|i: int|
            0 <= i < s.len() ==> polygons_draws(s, opt)[i] == (#[trigger] s[i]).draws(opt)[0]
                && polygons_draws(s, opt)[i].kind == Primitive::LinePath,
    decreases s.len(),
{
    if s.len() > 0 {
        lemma_polygons_one_call_each(s.drop_last(), opt);
        assert forall|i: int| 0 <= i < s.len() implies polygons_draws(s, opt)[i] == (
        #[trigger] s[i]).draws(opt)[0] by {
            if i < s.len() - 1 {
                assert(s.drop_last()[i] == s[i]);
            }
        }
    }
}

/// Rendering the members of `a` and then those of `b` issues the same calls,
/// in the same order, as rendering the members of `a + b`.
pub proof fn lemma_geometries_compose<T, O>(a: Seq<Geometry<T>>, b: Seq<Geometry<T>>, opt: O)
    ensures
        geometries_draws(a + b, opt) == geometries_draws(a, opt) + geometries_draws(b, opt),
    decreases b.len(),
{
    if b.len() == 0 {
        assert(a + b =~= a);
        assert(geometries_draws(a, opt) + geometries_draws(b, opt) =~= geometries_draws(a, opt));
    } else {
        let ab = a + b;
        assert(ab.subrange(0, ab.len() - 1) =~= a + b.subrange(0, b.len() - 1));
        lemma_geometries_compose(a, b.subrange(0, b.len() - 1), opt);
        assert(geometries_draws(a + b, opt) =~= geometries_draws(a, opt) + geometries_draws(
            b,
            opt,
        ));
    }
}

/// A collection holding a point, a line, a line string and a polygon, in that
/// order, issues four calls: those of each member alone, in member order.
pub proof fn lemma_collection_of_simple_kinds<T, O>(
    p: Point<T>,
    l: Line<T>,
    ls: LineString<T>,
    pg: Polygon<T>,
    opt: O,
)
    ensures
        geometries_draws(
            seq![
                Geometry::Point(p),
                Geometry::Line(l),
                Geometry::LineString(ls),
                Geometry::Polygon(pg),
            ],
            opt,
        ) == p.draws(opt) + l.draws(opt) + ls.draws(opt) + pg.draws(opt),
        geometries_draws(
            seq![
                Geometry::Point(p),
                Geometry::Line(l),
                Geometry::LineString(ls),
                Geometry::Polygon(pg),
            ],
            opt,
        ).len() == 4,
{
    let g1 = seq![Geometry::Point(p)];
    let g2 = seq![Geometry::Line(l)];
    let g3 = seq![Geometry::LineString(ls)];
    let g4 = seq![Geometry::Polygon(pg)];
    assert(seq![
        Geometry::Point(p),
        Geometry::Line(l),
        Geometry::LineString(ls),
        Geometry::Polygon(pg),
    ] =~= g1 + g2 + g3 + g4);
    lemma_geometries_single(Geometry::Point(p), opt);
    lemma_geometries_single(Geometry::Line(l), opt);
    lemma_geometries_single(Geometry::LineString(ls), opt);
    lemma_geometries_single(Geometry::Polygon(pg), opt);
    lemma_geometries_compose(g1, g2, opt);
    lemma_geometries_compose(g1 + g2, g3, opt);
    lemma_geometries_compose(g1 + g2 + g3, g4, opt);
}

/// Rendering a collection of one member issues exactly that member's calls.
pub proof fn lemma_geometries_single<T, O>(g: Geometry<T>, opt: O)
    ensures
        geometries_draws(seq![g], opt) == g.draws(opt),
{
    let s = seq![g];
    assert(s.len() == 1 && s[0] == g);
    assert(s.subrange(0, 0) =~= Seq::<Geometry<T>>::empty());
    assert(geometries_draws(s.subrange(0, 0), opt) =~= Seq::<Draw<T, O>>::empty());
    assert(geometries_draws(s, opt) =~= g.draws(opt));
}

proof fn lemma_styled_concat<T, O>(a: Seq<Draw<T, O>>, b: Seq<Draw<T, O>>, opt: O)
    requires
        all_styled(a, opt),
        all_styled(b, opt),
    ensures
        all_styled(a + b, opt),
{
    assert forall|i: int| 0 <= i < (a + b).len() implies (#[trigger] (a + b)[i]).style == opt by {
        if i >= a.len() {
            assert((a + b)[i] == b[i - a.len()]);
        }
    }
}

proof fn lemma_points_styled<T, O>(s: Seq<Point<T>>, opt: O)
    ensures
        all_styled(points_draws(s, opt), opt),
    decreases s.len(),
{
    if s.len() > 0 {
        lemma_points_styled(s.drop_last(), opt);
        lemma_styled_concat(points_draws(s.drop_last(), opt), s.last().draws(opt), opt);
    }
}

proof fn lemma_line_strings_styled<T, O>(s: Seq<LineString<T>>, opt: O)
    ensures
        all_styled(line_strings_draws(s, opt), opt),
    decreases s.len(),
{
    if s.len() > 0 {
        lemma_line_strings_styled(s.drop_last(), opt);
        lemma_styled_concat(line_strings_draws(s.drop_last(), opt), s.last().draws(opt), opt);
    }
}

proof fn lemma_polygons_styled<T, O>(s: Seq<Polygon<T>>, opt: O)
    ensures
        all_styled(polygons_draws(s, opt), opt),
    decreases s.len(),
{
    if s.len() > 0 {
        lemma_polygons_styled(s.drop_last(), opt);
        lemma_styled_concat(polygons_draws(s.drop_last(), opt), s.last().draws(opt), opt);
    }
}

/// Every call that renders the members of `s` carries the style `opt`.
pub proof fn lemma_geometries_styled<T, O>(s: Seq<Geometry<T>>, opt: O)
    ensures
        all_styled(geometries_draws(s, opt), opt),
    decreases s,
{
    if s.len() > 0 {
        let init = s.subrange(0, s.len() - 1);
        lemma_geometries_styled(init, opt);
        lemma_geometry_styled(s[s.len() - 1], opt);
        lemma_styled_concat(geometries_draws(init, opt), s[s.len() - 1].draws(opt), opt);
    }
}

/// Every call that renders `g`, those of its members included, carries the
/// style `opt` given to the top-level render.
pub proof fn lemma_geometry_styled<T, O>(g: Geometry<T>, opt: O)
    ensures
        all_styled(g.draws(opt), opt),
    decreases g,
{
    match g {
        Geometry::MultiPoint(m) => lemma_points_styled(m.0@, opt),
        Geometry::MultiLineString(m) => lemma_line_strings_styled(m.0@, opt),
        Geometry::MultiPolygon(m) => lemma_polygons_styled(m.0@, opt),
        Geometry::GeometryCollection(c) => lemma_geometries_styled(c.0@, opt),
        _ => {},
    }
}

} // verus!
