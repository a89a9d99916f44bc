//! Sub-view of a Grid3.

use vstd::prelude::*;
use crate::range::{
    lemma_narrower_contains, limits, more_strict, narrower, AxisBound, Limit, Range0To,
};
use crate::grid3::{in_bounds_spec, Coord3, Grid3, Grid3Get, Grid3Len, Grid3Mut, Grid3Ref, Grid3Set};

verus! {

/// Sub-view of a Grid3.
///
/// The valid coordinates in this grid are a subset
/// of the valid coordinates in the inner grid.
pub struct Grid3Slice<G, X, Y, Z> where G: Grid3, X: AxisBound, Y: AxisBound, Z: AxisBound {
    inner: G,
    x_bound: X,
    y_bound: Y,
    z_bound: Z,
}

impl<G, X, Y, Z> Grid3Slice<G, X, Y, Z> where G: Grid3, X: AxisBound, Y: AxisBound, Z: AxisBound {
    /// The sliced grid.
    pub closed spec fn inner(&self) -> G {
        self.inner
    }

    /// Fails, handing `inner` back, if the new bounds are not a subset of the old ones.
    pub fn try_new(inner: G, new_x: X, new_y: Y, new_z: Z) -> (r: Result<Self, G>)
        requires
            inner.wf(),
        ensures
            r is Ok <==> narrower(limits(new_x), inner.x_limits()) && narrower(
                limits(new_y),
                inner.y_limits(),
            ) && narrower(limits(new_z), inner.z_limits()),
            r matches Ok(s) ==> s.wf() && s.inner() == inner && s.x_limits() == limits(new_x)
                && s.y_limits() == limits(new_y) && s.z_limits() == limits(new_z),
            r matches Err(g) ==> g == inner,
    {
        let x_ok = more_strict(&new_x, &inner.x_bound());
        let y_ok = more_strict(&new_y, &inner.y_bound());
        let z_ok = more_strict(&new_z, &inner.z_bound());
        if x_ok && y_ok && z_ok {
            Ok(Grid3Slice { inner, x_bound: new_x, y_bound: new_y, z_bound: new_z })
        } else {
            Err(inner)
        }
    }

    /// The new bounds must be a subset of the old ones.
    pub fn new(inner: G, new_x: X, new_y: Y, new_z: Z) -> (r: Self)
        requires
            inner.wf(),
            narrower(limits(new_x), inner.x_limits()),
            narrower(limits(new_y), inner.y_limits()),
            narrower(limits(new_z), inner.z_limits()),
        ensures
            r.wf(),
            r.inner() == inner,
            r.x_limits() == limits(new_x),
            r.y_limits() == limits(new_y),
            r.z_limits() == limits(new_z),
    {
        Grid3Slice { inner, x_bound: new_x, y_bound: new_y, z_bound: new_z }
    }

    /// An in-bounds coordinate of the slice is an in-bounds coordinate of the inner grid.
    proof fn lemma_inside(&self, c: Coord3)
        requires
            self.wf(),
            in_bounds_spec(*self, c),
        ensures
            in_bounds_spec(self.inner(), c),
    {
        lemma_narrower_contains(self.x_limits(), self.inner().x_limits(), c.x as int);
        lemma_narrower_contains(self.y_limits(), self.inner().y_limits(), c.y as int);
        lemma_narrower_contains(self.z_limits(), self.inner().z_limits(), c.z as int);
    }
}

impl<G, X, Y, Z> Grid3 for Grid3Slice<G, X, Y, Z> where G: Grid3, X: AxisBound, Y: AxisBound, Z: AxisBound {
    type Item = G::Item;

    type XBound = X;

    type YBound = Y;

    type ZBound = Z;

    open spec fn wf(&self) -> bool {
        &&& self.inner().wf()
        &&& narrower(self.x_limits(), self.inner().x_limits())
        &&& narrower(self.y_limits(), self.inner().y_limits())
        &&& narrower(self.z_limits(), self.inner().z_limits())
    }

    closed spec fn x_limits(&self) -> (Limit, Limit) {
        limits(self.x_bound)
    }

    closed spec fn y_limits(&self) -> (Limit, Limit) {
        limits(self.y_bound)
    }

    closed spec fn z_limits(&self) -> (Limit, Limit) {
        limits(self.z_bound)
    }

    fn x_bound(&self) -> (r: X) {
        self.x_bound.duplicate()
    }

    fn y_bound(&self) -> (r: Y) {
        self.y_bound.duplicate()
    }

    fn z_bound(&self) -> (r: Z) {
        self.z_bound.duplicate()
    }
}

impl<G> Grid3Len for Grid3Slice<G, Range0To, Range0To, Range0To> where G: Grid3 {
}

impl<G, X, Y, Z> Grid3Get for Grid3Slice<G, X, Y, Z> where G: Grid3Get, X: AxisBound, Y: AxisBound, Z: AxisBound {
    open spec fn gives(&self, c: Coord3, v: G::Item) -> bool {
        self.inner().gives(c, v)
    }

    fn get(&self, coord: Coord3) -> (r: G::Item) {
        proof {
            self.lemma_inside(coord);
        }
        self.inner.get(coord)
    }
}

impl<G, X, Y, Z> Grid3Ref for Grid3Slice<G, X, Y, Z> where G: Grid3Ref, X: AxisBound, Y: AxisBound, Z: AxisBound {
    open spec fn refers(&self, c: Coord3, v: G::Item) -> bool {
        self.inner().refers(c, v)
    }

    fn idx(&self, coord: Coord3) -> (r: &G::Item) {
        proof {
            self.lemma_inside(coord);
        }
        self.inner.idx(coord)
    }
}

impl<G, X, Y, Z> Grid3Set for Grid3Slice<G, X, Y, Z> where G: Grid3Set, X: AxisBound, Y: AxisBound, Z: AxisBound {
    open spec fn sets(&self, c: Coord3, v: G::Item, after: Self) -> bool {
        &&& after.x_limits() == self.x_limits()
        &&& after.y_limits() == self.y_limits()
        &&& after.z_limits() == self.z_limits()
        &&& self.inner().sets(c, v, after.inner())
    }

    fn set(&mut self, coord: Coord3, elem: G::Item) {
        proof {
            self.lemma_inside(coord);
        }
        self.inner.set(coord, elem);
    }
}

impl<G, X, Y, Z> Grid3Mut for Grid3Slice<G, X, Y, Z> where G: Grid3Mut, X: AxisBound, Y: AxisBound, Z: AxisBound {
    open spec fn lends(&self, c: Coord3, cur: G::Item, fin: G::Item, after: Self) -> bool {
        &&& after.x_limits() == self.x_limits()
        &&& after.y_limits() == self.y_limits()
        &&& after.z_limits() == self.z_limits()
        &&& self.inner().lends(c, cur, fin, after.inner())
    }

    fn midx(&mut self, coord: Coord3) -> (r: &mut G::Item) {
        proof {
            self.lemma_inside(coord);
        }
        self.inner.midx(coord)
    }
}

} // verus!
