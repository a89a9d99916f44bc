//! Change to origin.

use vstd::prelude::*;
use crate::range::{
    limits, limits_contain, lower_incl, shift_fits, shifted, upper_excl, AxisBound, Limit,
    RangeBoundsPlus,
};
use crate::grid3::{in_bounds_spec, Coord3, Grid3, Grid3Get, Grid3Mut, Grid3Ref, Grid3Set};
use crate::grid2::neworigin::{
    lemma_shifted_contains, shift_fits_axis, shifted_axis, two_sided_or_open, wrap_i32,
};

verus! {

/// <0, 0> in the inner grid will be new_origin in this grid.
pub struct Grid3NewOrigin<G> where
    G: Grid3,
    G::XBound: RangeBoundsPlus,
    G::YBound: RangeBoundsPlus,
    G::ZBound: RangeBoundsPlus,
 {
    inner: G,
    new_origin: Coord3,
    new_xbound: <G::XBound as RangeBoundsPlus>::Output,
    new_ybound: <G::YBound as RangeBoundsPlus>::Output,
    new_zbound: <G::ZBound as RangeBoundsPlus>::Output,
}

impl<G> Grid3NewOrigin<G> where
    G: Grid3,
    G::XBound: RangeBoundsPlus,
    G::YBound: RangeBoundsPlus,
    G::ZBound: RangeBoundsPlus,
 {
    /// The shifted grid.
    pub closed spec fn inner(&self) -> G {
        self.inner
    }

    /// Where the inner grid's origin lands.
    pub closed spec fn origin(&self) -> Coord3 {
        self.new_origin
    }

    /// Where `c` lies in the inner grid.
    pub open spec fn adjusted(&self, c: Coord3) -> Coord3 {
        Coord3 {
            x: wrap_i32(c.x - self.origin().x),
            y: wrap_i32(c.y - self.origin().y),
            z: wrap_i32(c.z - self.origin().z),
        }
    }

    /// The stored shifted bounds match the inner grid's bounds.
    pub closed spec fn cache_ok(&self) -> bool {
        &&& limits(self.new_xbound) == shifted_axis(self.inner.x_limits(), self.new_origin.x as int)
        &&& limits(self.new_ybound) == shifted_axis(self.inner.y_limits(), self.new_origin.y as int)
        &&& limits(self.new_zbound) == shifted_axis(self.inner.z_limits(), self.new_origin.z as int)
    }

    pub fn new(inner: G, new_origin: Coord3) -> (r: Self)
        requires
            inner.wf(),
            two_sided_or_open(inner.x_limits()),
            two_sided_or_open(inner.y_limits()),
            two_sided_or_open(inner.z_limits()),
            shift_fits_axis(inner.x_limits(), new_origin.x as int),
            shift_fits_axis(inner.y_limits(), new_origin.y as int),
            shift_fits_axis(inner.z_limits(), new_origin.z as int),
        ensures
            r.wf(),
            r.inner() == inner,
            r.origin() == new_origin,
    {
        let new_xbound = inner.x_bound().plus(new_origin.x);
        let new_ybound = inner.y_bound().plus(new_origin.y);
        let new_zbound = inner.z_bound().plus(new_origin.z);
        Grid3NewOrigin { inner, new_origin, new_xbound, new_ybound, new_zbound }
    }

    pub fn new_origin(&self) -> (r: Coord3)
        ensures
            r == self.origin(),
    {
        self.new_origin
    }

    /// Move `coord` from this grid's space into the inner grid's.
    pub fn adjust_coord(&self, coord: Coord3) -> (r: Coord3)
        ensures
            r == self.adjusted(coord),
    {
        Coord3 {
            x: coord.x.wrapping_sub(self.new_origin.x),
            y: coord.y.wrapping_sub(self.new_origin.y),
            z: coord.z.wrapping_sub(self.new_origin.z),
        }
    }

    /// An in-bounds coordinate of this grid moves to an in-bounds coordinate of the inner
    /// grid.
    proof fn lemma_adjust(&self, c: Coord3)
        requires
            self.wf(),
            in_bounds_spec(*self, c),
        ensures
            in_bounds_spec(self.inner(), self.adjusted(c)),
    {
        let o = self.origin();
        lemma_shifted_contains(self.inner().x_limits(), o.x as int, c.x as int);
        lemma_shifted_contains(self.inner().y_limits(), o.y as int, c.y as int);
        lemma_shifted_contains(self.inner().z_limits(), o.z as int, c.z as int);
    }
}

impl<G> Grid3 for Grid3NewOrigin<G> where
    G: Grid3,
    G::XBound: RangeBoundsPlus,
    G::YBound: RangeBoundsPlus,
    G::ZBound: RangeBoundsPlus,
 {
    type Item = G::Item;

    type XBound = <G::XBound as RangeBoundsPlus>::Output;

    type YBound = <G::YBound as RangeBoundsPlus>::Output;

    type ZBound = <G::ZBound as RangeBoundsPlus>::Output;

    open spec fn wf(&self) -> bool {
        &&& self.inner().wf()
        &&& two_sided_or_open(self.inner().x_limits())
        &&& two_sided_or_open(self.inner().y_limits())
        &&& two_sided_or_open(self.inner().z_limits())
        &&& shift_fits_axis(self.inner().x_limits(), self.origin().x as int)
        &&& shift_fits_axis(self.inner().y_limits(), self.origin().y as int)
        &&& shift_fits_axis(self.inner().z_limits(), self.origin().z as int)
        &&& self.cache_ok()
    }

    open spec fn x_limits(&self) -> (Limit, Limit) {
        shifted_axis(self.inner().x_limits(), self.origin().x as int)
    }

    open spec fn y_limits(&self) -> (Limit, Limit) {
        shifted_axis(self.inner().y_limits(), self.origin().y as int)
    }

    open spec fn z_limits(&self) -> (Limit, Limit) {
        shifted_axis(self.inner().z_limits(), self.origin().z as int)
    }

    fn x_bound(&self) -> (r: Self::XBound) {
        self.new_xbound.duplicate()
    }

    fn y_bound(&self) -> (r: Self::YBound) {
        self.new_ybound.duplicate()
    }

    fn z_bound(&self) -> (r: Self::ZBound) {
        self.new_zbound.duplicate()
    }
}

impl<G> Grid3Get for Grid3NewOrigin<G> where
    G: Grid3Get,
    G::XBound: RangeBoundsPlus,
    G::YBound: RangeBoundsPlus,
    G::ZBound: RangeBoundsPlus,
 {
    open spec fn gives(&self, c: Coord3, v: G::Item) -> bool {
        self.inner().gives(self.adjusted(c), v)
    }

    fn get(&self, coord: Coord3) -> (r: G::Item) {
        proof {
            self.lemma_adjust(coord);
        }
        let c = self.adjust_coord(coord);
        self.inner.get(c)
    }
}

impl<G> Grid3Ref for Grid3NewOrigin<G> where
    G: Grid3Ref,
    G::XBound: RangeBoundsPlus,
    G::YBound: RangeBoundsPlus,
    G::ZBound: RangeBoundsPlus,
 {
    open spec fn refers(&self, c: Coord3, v: G::Item) -> bool {
        self.inner().refers(self.adjusted(c), v)
    }

    fn idx(&self, coord: Coord3) -> (r: &G::Item) {
        proof {
            self.lemma_adjust(coord);
        }
        let c = self.adjust_coord(coord);
        self.inner.idx(c)
    }
}

impl<G> Grid3Set for Grid3NewOrigin<G> where
    G: Grid3Set,
    G::XBound: RangeBoundsPlus,
    G::YBound: RangeBoundsPlus,
    G::ZBound: RangeBoundsPlus,
 {
    open spec fn sets(&self, c: Coord3, v: G::Item, after: Self) -> bool {
        &&& after.origin() == self.origin()
        &&& self.inner().sets(self.adjusted(c), v, after.inner())
    }

    fn set(&mut self, coord: Coord3, elem: G::Item) {
        proof {
            self.lemma_adjust(coord);
        }
        let c = self.adjust_coord(coord);
        self.inner.set(c, elem);
    }
}

impl<G> Grid3Mut for Grid3NewOrigin<G> where
    G: Grid3Mut,
    G::XBound: RangeBoundsPlus,
    G::YBound: RangeBoundsPlus,
    G::ZBound: RangeBoundsPlus,
 {
    open spec fn lends(&self, c: Coord3, cur: G::Item, fin: G::Item, after: Self) -> bool {
        &&& after.origin() == self.origin()
        &&& self.inner().lends(self.adjusted(c), cur, fin, after.inner())
    }

    fn midx(&mut self, coord: Coord3) -> (r: &mut G::Item) {
        proof {
            self.lemma_adjust(coord);
        }
        let c = self.adjust_coord(coord);
        self.inner.midx(c)
    }
}

/// Moving a grid's origin to `(ox, oy, oz)` moves its bounds by the same amount, and reading at
/// an in-bounds `(x, y, z)` may return exactly what reading the inner grid at
/// `(x - ox, y - oy, z - oz)` may return.
pub proof fn lemma_origin_shift<G>(g: Grid3NewOrigin<G>, c: Coord3)
    where
        G: Grid3Get,
        G::XBound: RangeBoundsPlus,
        G::YBound: RangeBoundsPlus,
        G::ZBound: RangeBoundsPlus,
    requires
        g.wf(),
        in_bounds_spec(g, c),
        i32::MIN <= c.x - g.origin().x <= i32::MAX,
        i32::MIN <= c.y - g.origin().y <= i32::MAX,
        i32::MIN <= c.z - g.origin().z <= i32::MAX,
    ensures
        g.x_limits() == shifted_axis(g.inner().x_limits(), g.origin().x as int),
        g.y_limits() == shifted_axis(g.inner().y_limits(), g.origin().y as int),
        g.z_limits() == shifted_axis(g.inner().z_limits(), g.origin().z as int),
        g.adjusted(c).x == c.x - g.origin().x,
        g.adjusted(c).y == c.y - g.origin().y,
        g.adjusted(c).z == c.z - g.origin().z,
        in_bounds_spec(g.inner(), g.adjusted(c)),
        forall|v: G::Item| g.gives(c, v) <==> g.inner().gives(g.adjusted(c), v),
{
    g.lemma_adjust(c);
}

} // verus!
