//! Rendering: each geometry issues its draw calls against a surface.
use crate::geometry::{
    geometries_draws, line_strings_draws, points_draws, polygons_draws, xs_of, ys_of, Coordinate,
    Geometry, GeometryCollection, Line, LineString, MultiLineString, MultiPoint, MultiPolygon,
    Point, Polygon,
};
use crate::laws::lemma_geometry_styled;
use crate::surface::Surface;
use vstd::prelude::*;

verus! {

/// Renders `g` on `surface`: appends exactly the calls of `g.draws(opt)`,
/// in order, and leaves the calls already there untouched. Every appended
/// call carries the style `opt`, those of nested members included.
pub fn render<T: Copy, O: Copy>(g: &Geometry<T>, surface: &mut Surface<T, O>, opt: O)
    ensures
        final(surface)@ == old(surface)@ + g.draws(opt),
        forall|i: int|
            old(surface)@.len() <= i < final(surface)@.len() ==> (#[trigger] final(surface)@[i]).style
                == opt,
{
    g.plot(surface, opt);
    proof {
        lemma_geometry_styled(*g, opt);
        assert forall|i: int|
            old(surface)@.len() <= i < surface@.len() implies (#[trigger] surface@[i]).style
            == opt by {
            assert(surface@[i] == g.draws(opt)[i - old(surface)@.len()]);
        }
    }
}

/// Splits vertices into their x and their y coordinates, order kept.
pub fn unzip<T: Copy>(cs: &Vec<Coordinate<T>>) -> (r: (Vec<T>, Vec<T>))
    ensures
        r.0@ == xs_of(cs@),
        r.1@ == ys_of(cs@),
{
    let mut xs: Vec<T> = Vec::new();
    let mut ys: Vec<T> = Vec::new();
    let n = cs.len();
    for i in 0..n
        invariant
            n == cs@.len(),
            xs@ == xs_of(cs@.subrange(0, i as int)),
            ys@ == ys_of(cs@.subrange(0, i as int)),
    {
        let c = &cs[i];
        xs.push(c.x);
        ys.push(c.y);
        proof {
            assert(xs@ =~= xs_of(cs@.subrange(0, i + 1)));
            assert(ys@ =~= ys_of(cs@.subrange(0, i + 1)));
        }
    }
    proof {
        assert(cs@.subrange(0, n as int) =~= cs@);
    }
    (xs, ys)
}

impl<T: Copy> Coordinate<T> {
    /// Issues one point-set call with this single position.
    pub fn plot<O: Copy>(&self, surface: &mut Surface<T, O>, opt: O)
        ensures
            final(surface)@ == old(surface)@ + self.draws(opt),
    {
        let xs = vec![self.x];
        let ys = vec![self.y];
        surface.add_point_set(xs, ys, opt);
        proof {
            assert(xs@ =~= seq![self.x]);
            assert(ys@ =~= seq![self.y]);
            assert(surface@ =~= old(surface)@ + self.draws(opt));
        }
    }
}

impl<T: Copy> Point<T> {
    /// Issues one point-set call with this point's position.
    pub fn plot<O: Copy>(&self, surface: &mut Surface<T, O>, opt: O)
        ensures
            final(surface)@ == old(surface)@ + self.draws(opt),
    {
        self.0.plot(surface, opt);
    }
}

impl<T: Copy> Line<T> {
    /// Issues one line-path call through `start` and then `end`.
    pub fn plot<O: Copy>(&self, surface: &mut Surface<T, O>, opt: O)
        ensures
            final(surface)@ == old(surface)@ + self.draws(opt),
    {
        let xs = vec![self.start.x, self.end.x];
        let ys = vec![self.start.y, self.end.y];
        surface.add_line_path(xs, ys, opt);
        proof {
            assert(xs@ =~= xs_of(seq![self.start, self.end]));
            assert(ys@ =~= ys_of(seq![self.start, self.end]));
            assert(surface@ =~= old(surface)@ + self.draws(opt));
        }
    }
}

impl<T: Copy> LineString<T> {
    /// Issues one line-path call through all vertices in order; with no
    /// vertices the call is still issued, with empty coordinate lists.
    pub fn plot<O: Copy>(&self, surface: &mut Surface<T, O>, opt: O)
        ensures
            final(surface)@ == old(surface)@ + self.draws(opt),
    {
        let (xs, ys) = unzip(&self.0);
        surface.add_line_path(xs, ys, opt);
        proof {
            assert(surface@ =~= old(surface)@ + self.draws(opt));
        }
    }
}

impl<T: Copy> Polygon<T> {
    /// Issues one line-path call through the exterior ring; the interior
    /// rings are not drawn.
    pub fn plot<O: Copy>(&self, surface: &mut Surface<T, O>, opt: O)
        ensures
            final(surface)@ == old(surface)@ + self.draws(opt),
    {
        self.exterior.plot(surface, opt);
    }
}

impl<T: Copy> MultiPoint<T> {
    /// Renders each point in turn.
    pub fn plot<O: Copy>(&self, surface: &mut Surface<T, O>, opt: O)
        ensures
            final(surface)@ == old(surface)@ + self.draws(opt),
    {
        let n = self.0.len();
        for i in 0..n
            invariant
                n == self.0@.len(),
                surface@ == old(surface)@ + points_draws(self.0@.subrange(0, i as int), opt),
        {
            self.0[i].plot(surface, opt);
            proof {
                let s = self.0@.subrange(0, i + 1);
                assert(s.drop_last() =~= self.0@.subrange(0, i as int));
                assert(surface@ =~= old(surface)@ + points_draws(s, opt));
            }
        }
        proof {
            assert(self.0@.subrange(0, n as int) =~= self.0@);
        }
    }
}

impl<T: Copy> MultiLineString<T> {
    /// Renders each line string in turn.
    pub fn plot<O: Copy>(&self, surface: &mut Surface<T, O>, opt: O)
        ensures
            final(surface)@ == old(surface)@ + self.draws(opt),
    {
        let n = self.0.len();
        for i in 0..n
            invariant
                n == self.0@.len(),
                surface@ == old(surface)@ + line_strings_draws(self.0@.subrange(0, i as int), opt),
        {
            self.0[i].plot(surface, opt);
            proof {
                let s = self.0@.subrange(0, i + 1);
                assert(s.drop_last() =~= self.0@.subrange(0, i as int));
                assert(surface@ =~= old(surface)@ + line_strings_draws(s, opt));
            }
        }
        proof {
            assert(self.0@.subrange(0, n as int) =~= self.0@);
        }
    }
}

impl<T: Copy> MultiPolygon<T> {
    /// Renders each polygon in turn.
    pub fn plot<O: Copy>(&self, surface: &mut Surface<T, O>, opt: O)
        ensures
            final(surface)@ == old(surface)@ + self.draws(opt),
    {
        let n = self.0.len();
        for i in 0..n
            invariant
                n == self.0@.len(),
                surface@ == old(surface)@ + polygons_draws(self.0@.subrange(0, i as int), opt),
        {
            self.0[i].plot(surface, opt);
            proof {
                let s = self.0@.subrange(0, i + 1);
                assert(s.drop_last() =~= self.0@.subrange(0, i as int));
                assert(surface@ =~= old(surface)@ + polygons_draws(s, opt));
            }
        }
        proof {
            assert(self.0@.subrange(0, n as int) =~= self.0@);
        }
    }
}

impl<T: Copy> Geometry<T> {
    /// Renders this geometry according to its kind.
    pub fn plot<O: Copy>(&self, surface: &mut Surface<T, O>, opt: O)
        ensures
            final(surface)@ == old(surface)@ + self.draws(opt),
        decreases self,
    {
        match self {
            Geometry::Point(g) => g.plot(surface, opt),
            Geometry::Line(g) => g.plot(surface, opt),
            Geometry::LineString(g) => g.plot(surface, opt),
            Geometry::Polygon(g) => g.plot(surface, opt),
            Geometry::MultiPoint(g) => g.plot(surface, opt),
            Geometry::MultiLineString(g) => g.plot(surface, opt),
            Geometry::MultiPolygon(g) => g.plot(surface, opt),
            Geometry::GeometryCollection(g) => g.plot(surface, opt),
        }
    }
}

impl<T: Copy> GeometryCollection<T> {
    /// Renders each member in turn, each according to its own kind.
    pub fn plot<O: Copy>(&self, surface: &mut Surface<T, O>, opt: O)
        ensures
            final(surface)@ == old(surface)@ + self.draws(opt),
        decreases self,
    {
        let n = self.0.len();
        for i in 0..n
            invariant
                n == self.0@.len(),
                surface@ == old(surface)@ + geometries_draws(self.0@.subrange(0, i as int), opt),
        {
            proof {
                assert(decreases_to!(self => self.0@[i as int]));
            }
            self.0[i].plot(surface, opt);
            proof {
                let s = self.0@.subrange(0, i + 1);
                assert(s.subrange(0, s.len() - 1) =~= self.0@.subrange(0, i as int));
                assert(surface@ =~= old(surface)@ + geometries_draws(s, opt));
            }
        }
        proof {
            assert(self.0@.subrange(0, n as int) =~= self.0@);
        }
    }
}

} // verus!
