//! Sub-view of a Grid2.

use vstd::prelude::*;
use crate::range::{
    lemma_narrower_contains, limits, more_strict, narrower, AxisBound, Limit, Range0To,
};
use crate::grid2::{in_bounds_spec, Coord, Grid2, Grid2Get, Grid2Len, Grid2Mut, Grid2Ref, Grid2Set};

verus! {

/// Sub-view of a Grid2.
///
/// The valid coordinates in this grid are a subset
/// of the valid coordinates in the inner grid.
pub struct Grid2Slice<G, X, Y> where G: Grid2, X: AxisBound, Y: AxisBound {
    inner: G,
    x_bound: X,
    y_bound: Y,
}

impl<G, X, Y> Grid2Slice<G, X, Y> where G: Grid2, X: AxisBound, Y: AxisBound {
    /// The sliced grid.
    pub closed spec fn inner(&self) -> G {
        self.inner
    }

    /// Fails, handing `inner` back, if the new bounds are not a subset of the old ones.
    pub fn try_new(inner: G, new_x: X, new_y: Y) -> (r: Result<Self, G>)
        requires
            inner.wf(),
        ensures
            r is Ok <==> narrower(limits(new_x), inner.x_limits()) && narrower(
                limits(new_y),
                inner.y_limits(),
            ),
            r matches Ok(s) ==> s.wf() && s.inner() == inner && s.x_limits() == limits(new_x)
                && s.y_limits() == limits(new_y),
            r matches Err(g) ==> g == inner,
    {
        let x_ok = more_strict(&new_x, &inner.x_bound());
        let y_ok = more_strict(&new_y, &inner.y_bound());
        if x_ok && y_ok {
            Ok(Grid2Slice { inner, x_bound: new_x, y_bound: new_y })
        } else {
            Err(inner)
        }
    }

    /// The new bounds must be a subset of the old ones.
    pub fn new(inner: G, new_x: X, new_y: Y) -> (r: Self)
        requires
            inner.wf(),
            narrower(limits(new_x), inner.x_limits()),
            narrower(limits(new_y), inner.y_limits()),
        ensures
            r.wf(),
            r.inner() == inner,
            r.x_limits() == limits(new_x),
            r.y_limits() == limits(new_y),
    {
        Grid2Slice { inner, x_bound: new_x, y_bound: new_y }
    }

    /// An in-bounds coordinate of the slice is an in-bounds coordinate of the inner grid.
    proof fn lemma_inside(&self, c: Coord)
        requires
            self.wf(),
            in_bounds_spec(*self, c),
        ensures
            in_bounds_spec(self.inner(), c),
    {
        lemma_narrower_contains(self.x_limits(), self.inner().x_limits(), c.x as int);
        lemma_narrower_contains(self.y_limits(), self.inner().y_limits(), c.y as int);
    }
}

impl<G, X, Y> Grid2 for Grid2Slice<G, X, Y> where G: Grid2, X: AxisBound, Y: AxisBound {
    type Item = G::Item;

    type XBound = X;

    type YBound = Y;

    open spec fn wf(&self) -> bool {
        &&& self.inner().wf()
        &&& narrower(self.x_limits(), self.inner().x_limits())
        &&& narrower(self.y_limits(), self.inner().y_limits())
    }

    closed spec fn x_limits(&self) -> (Limit, Limit) {
        limits(self.x_bound)
    }

    closed spec fn y_limits(&self) -> (Limit, Limit) {
        limits(self.y_bound)
    }

    fn x_bound(&self) -> (r: X) {
        self.x_bound.duplicate()
    }

    fn y_bound(&self) -> (r: Y) {
        self.y_bound.duplicate()
    }
}

impl<G> Grid2Len for Grid2Slice<G, Range0To, Range0To> where G: Grid2 {
}

impl<G, X, Y> Grid2Get for Grid2Slice<G, X, Y> where G: Grid2Get, X: AxisBound, Y: AxisBound {
    open spec fn gives(&self, c: Coord, v: G::Item) -> bool {
        self.inner().gives(c, v)
    }

    fn get(&self, coord: Coord) -> (r: G::Item) {
        proof {
            self.lemma_inside(coord);
        }
        self.inner.get(coord)
    }
}

impl<G, X, Y> Grid2Ref for Grid2Slice<G, X, Y> where G: Grid2Ref, X: AxisBound, Y: AxisBound {
    open spec fn refers(&self, c: Coord, v: G::Item) -> bool {
        self.inner().refers(c, v)
    }

    fn idx(&self, coord: Coord) -> (r: &G::Item) {
        proof {
            self.lemma_inside(coord);
        }
        self.inner.idx(coord)
    }
}

impl<G, X, Y> Grid2Set for Grid2Slice<G, X, Y> where G: Grid2Set, X: AxisBound, Y: AxisBound {
    open spec fn sets(&self, c: Coord, v: G::Item, after: Self) -> bool {
        &&& after.x_limits() == self.x_limits()
        &&& after.y_limits() == self.y_limits()
        &&& self.inner().sets(c, v, after.inner())
    }

    fn set(&mut self, coord: Coord, elem: G::Item) {
        proof {
            self.lemma_inside(coord);
        }
        self.inner.set(coord, elem);
    }
}

impl<G, X, Y> Grid2Mut for Grid2Slice<G, X, Y> where G: Grid2Mut, X: AxisBound, Y: AxisBound {
    open spec fn lends(&self, c: Coord, cur: G::Item, fin: G::Item, after: Self) -> bool {
        &&& after.x_limits() == self.x_limits()
        &&& after.y_limits() == self.y_limits()
        &&& self.inner().lends(c, cur, fin, after.inner())
    }

    fn midx(&mut self, coord: Coord) -> (r: &mut G::Item) {
        proof {
            self.lemma_inside(coord);
        }
        self.inner.midx(coord)
    }
}

} // verus!
