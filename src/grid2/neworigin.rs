//! Change to origin.

use vstd::prelude::*;
use crate::range::{
    limits, limits_contain, lower_incl, shift_fits, shifted, upper_excl, AxisBound, Limit,
    RangeBoundsPlus,
};
use crate::grid2::{in_bounds_spec, Coord, Grid2, Grid2Get, Grid2Mut, Grid2Ref, Grid2Set};

verus! {

/// Whether both limits of an axis can move by `n`.
pub open spec fn shift_fits_axis(l: (Limit, Limit), n: int) -> bool {
    shift_fits(l.0, n) && shift_fits(l.1, n)
}

/// The limits of an axis moved by `n`.
pub open spec fn shifted_axis(l: (Limit, Limit), n: int) -> (Limit, Limit) {
    (shifted(l.0, n), shifted(l.1, n))
}

/// A value lies in an axis moved by `n` exactly when the value less `n` lies in the axis.
pub proof fn lemma_shifted_contains(l: (Limit, Limit), n: int, v: int)
    requires
        shift_fits_axis(l, n),
    ensures
        limits_contain(shifted_axis(l, n).0, shifted_axis(l, n).1, v) == limits_contain(
            l.0,
            l.1,
            v - n,
        ),
{
}

/// Whether an axis is bounded on both sides or on neither.
pub open spec fn two_sided_or_open(l: (Limit, Limit)) -> bool {
    (lower_incl(l.0) is Some) == (upper_excl(l.1) is Some)
}

/// `v` reduced into `i32` the way two's-complement arithmetic wraps.
pub open spec fn wrap_i32(v: int) -> i32 {
    if v > i32::MAX {
        (v - 0x1_0000_0000) as i32
    } else if v < i32::MIN {
        (v + 0x1_0000_0000) as i32
    } else {
        v as i32
    }
}

/// <0, 0> in the inner grid will be new_origin in this grid.
pub struct Grid2NewOrigin<G> where
    G: Grid2,
    G::XBound: RangeBoundsPlus,
    G::YBound: RangeBoundsPlus,
 {
    inner: G,
    new_origin: Coord,
    new_xbound: <G::XBound as RangeBoundsPlus>::Output,
    new_ybound: <G::YBound as RangeBoundsPlus>::Output,
}

impl<G> Grid2NewOrigin<G> where
    G: Grid2,
    G::XBound: RangeBoundsPlus,
    G::YBound: RangeBoundsPlus,
 {
    /// The shifted grid.
    pub closed spec fn inner(&self) -> G {
        self.inner
    }

    /// Where the inner grid's origin lands.
    pub closed spec fn origin(&self) -> Coord {
        self.new_origin
    }

    /// Where `c` lies in the inner grid.
    pub open spec fn adjusted(&self, c: Coord) -> Coord {
        Coord { x: wrap_i32(c.x - self.origin().x), y: wrap_i32(c.y - self.origin().y) }
    }

    /// The stored shifted bounds match the inner grid's bounds.
    pub closed spec fn cache_ok(&self) -> bool {
        &&& limits(self.new_xbound) == shifted_axis(self.inner.x_limits(), self.new_origin.x as int)
        &&& limits(self.new_ybound) == shifted_axis(self.inner.y_limits(), self.new_origin.y as int)
    }

    pub fn new(inner: G, new_origin: Coord) -> (r: Self)
        requires
            inner.wf(),
            two_sided_or_open(inner.x_limits()),
            two_sided_or_open(inner.y_limits()),
            shift_fits_axis(inner.x_limits(), new_origin.x as int),
            shift_fits_axis(inner.y_limits(), new_origin.y as int),
        ensures
            r.wf(),
            r.inner() == inner,
            r.origin() == new_origin,
    {
        let new_xbound = inner.x_bound().plus(new_origin.x);
        let new_ybound = inner.y_bound().plus(new_origin.y);
        Grid2NewOrigin { inner, new_origin, new_xbound, new_ybound }
    }

    pub fn new_origin(&self) -> (r: Coord)
        ensures
            r == self.origin(),
    {
        self.new_origin
    }

    /// Move `coord` from this grid's space into the inner grid's.
    pub fn adjust_coord(&self, coord: Coord) -> (r: Coord)
        ensures
            r == self.adjusted(coord),
    {
        Coord {
            x: coord.x.wrapping_sub(self.new_origin.x),
            y: coord.y.wrapping_sub(self.new_origin.y),
        }
    }

    /// An in-bounds coordinate of this grid moves to an in-bounds coordinate of the inner
    /// grid.
    proof fn lemma_adjust(&self, c: Coord)
        requires
            self.wf(),
            in_bounds_spec(*self, c),
        ensures
            in_bounds_spec(self.inner(), self.adjusted(c)),
    {
        let o = self.origin();
        lemma_shifted_contains(self.inner().x_limits(), o.x as int, c.x as int);
        lemma_shifted_contains(self.inner().y_limits(), o.y as int, c.y as int);
    }
}

impl<G> Grid2 for Grid2NewOrigin<G> where
    G: Grid2,
    G::XBound: RangeBoundsPlus,
    G::YBound: RangeBoundsPlus,
 {
    type Item = G::Item;

    type XBound = <G::XBound as RangeBoundsPlus>::Output;

    type YBound = <G::YBound as RangeBoundsPlus>::Output;

    open spec fn wf(&self) -> bool {
        &&& self.inner().wf()
        &&& two_sided_or_open(self.inner().x_limits())
        &&& two_sided_or_open(self.inner().y_limits())
        &&& shift_fits_axis(self.inner().x_limits(), self.origin().x as int)
        &&& shift_fits_axis(self.inner().y_limits(), self.origin().y as int)
        &&& self.cache_ok()
    }

    open spec fn x_limits(&self) -> (Limit, Limit) {
        shifted_axis(self.inner().x_limits(), self.origin().x as int)
    }

    open spec fn y_limits(&self) -> (Limit, Limit) {
        shifted_axis(self.inner().y_limits(), self.origin().y as int)
    }

    fn x_bound(&self) -> (r: Self::XBound) {
        self.new_xbound.duplicate()
    }

    fn y_bound(&self) -> (r: Self::YBound) {
        self.new_ybound.duplicate()
    }
}

impl<G> Grid2Get for Grid2NewOrigin<G> where
    G: Grid2Get,
    G::XBound: RangeBoundsPlus,
    G::YBound: RangeBoundsPlus,
 {
    open spec fn gives(&self, c: Coord, v: G::Item) -> bool {
        self.inner().gives(self.adjusted(c), v)
    }

    fn get(&self, coord: Coord) -> (r: G::Item) {
        proof {
            self.lemma_adjust(coord);
        }
        let c = self.adjust_coord(coord);
        self.inner.get(c)
    }
}

impl<G> Grid2Ref for Grid2NewOrigin<G> where
    G: Grid2Ref,
    G::XBound: RangeBoundsPlus,
    G::YBound: RangeBoundsPlus,
 {
    open spec fn refers(&self, c: Coord, v: G::Item) -> bool {
        self.inner().refers(self.adjusted(c), v)
    }

    fn idx(&self, coord: Coord) -> (r: &G::Item) {
        proof {
            self.lemma_adjust(coord);
        }
        let c = self.adjust_coord(coord);
        self.inner.idx(c)
    }
}

impl<G> Grid2Set for Grid2NewOrigin<G> where
    G: Grid2Set,
    G::XBound: RangeBoundsPlus,
    G::YBound: RangeBoundsPlus,
 {
    open spec fn sets(&self, c: Coord, v: G::Item, after: Self) -> bool {
        &&& after.origin() == self.origin()
        &&& self.inner().sets(self.adjusted(c), v, after.inner())
    }

    fn set(&mut self, coord: Coord, elem: G::Item) {
        proof {
            self.lemma_adjust(coord);
        }
        let c = self.adjust_coord(coord);
        self.inner.set(c, elem);
    }
}

impl<G> Grid2Mut for Grid2NewOrigin<G> where
    G: Grid2Mut,
    G::XBound: RangeBoundsPlus,
    G::YBound: RangeBoundsPlus,
 {
    open spec fn lends(&self, c: Coord, cur: G::Item, fin: G::Item, after: Self) -> bool {
        &&& after.origin() == self.origin()
        &&& self.inner().lends(self.adjusted(c), cur, fin, after.inner())
    }

    fn midx(&mut self, coord: Coord) -> (r: &mut G::Item) {
        proof {
            self.lemma_adjust(coord);
        }
        let c = self.adjust_coord(coord);
        self.inner.midx(c)
    }
}

/// Moving a grid's origin to `(ox, oy)` moves its bounds by the same amount, and reading at an
/// in-bounds `(x, y)` may return exactly what reading the inner grid at `(x - ox, y - oy)`
/// may return.
pub proof fn lemma_origin_shift<G>(g: Grid2NewOrigin<G>, c: Coord)
    where
        G: Grid2Get,
        G::XBound: RangeBoundsPlus,
        G::YBound: RangeBoundsPlus,
    requires
        g.wf(),
        in_bounds_spec(g, c),
        i32::MIN <= c.x - g.origin().x <= i32::MAX,
        i32::MIN <= c.y - g.origin().y <= i32::MAX,
    ensures
        g.x_limits() == shifted_axis(g.inner().x_limits(), g.origin().x as int),
        g.y_limits() == shifted_axis(g.inner().y_limits(), g.origin().y as int),
        g.adjusted(c).x == c.x - g.origin().x,
        g.adjusted(c).y == c.y - g.origin().y,
        in_bounds_spec(g.inner(), g.adjusted(c)),
        forall|v: G::Item| g.gives(c, v) <==> g.inner().gives(g.adjusted(c), v),
{
    g.lemma_adjust(c);
}

} // verus!
