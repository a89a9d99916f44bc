//! Grid wrapping around edges.

use vstd::prelude::*;
use std::ops::RangeFull;
use crate::range::{lemma_rem_fold, full_range, limits, lower_incl, upper_excl, AxisBound, BoundRange, Limit};
use crate::grid3::{in_bounds_spec, Coord3, Grid3, Grid3Get, Grid3Mut, Grid3Ref, Grid3Set};
use crate::grid2::wrapping::{fold_axis, lemma_fold, wrappable};

verus! {

/// View of a grid which wraps around the edges.
///
/// The inner grid is bounded in all directions, and this
/// grid is completely unbounded.
pub struct Grid3Wrapping<G> where G: Grid3, G::XBound: BoundRange, G::YBound: BoundRange, G::ZBound: BoundRange {
    inner: G,
}

impl<G> Grid3Wrapping<G> where G: Grid3, G::XBound: BoundRange, G::YBound: BoundRange, G::ZBound: BoundRange {
    /// The wrapped grid.
    pub closed spec fn inner(&self) -> G {
        self.inner
    }

    /// Where `c` lands in the inner grid.
    pub open spec fn wrapped(&self, c: Coord3) -> Coord3 {
        Coord3 {
            x: fold_axis(c.x as int, self.inner().x_limits()) as i32,
            y: fold_axis(c.y as int, self.inner().y_limits()) as i32,
            z: fold_axis(c.z as int, self.inner().z_limits()) as i32,
        }
    }

    pub fn new(inner: G) -> (r: Self)
        requires
            inner.wf(),
            wrappable(inner.x_limits()),
            wrappable(inner.y_limits()),
            wrappable(inner.z_limits()),
        ensures
            r.inner() == inner,
            r.wf(),
    {
        Grid3Wrapping { inner }
    }

    /// `v` folded into the legal values of bound `b`.
    fn fold_value<B: BoundRange>(v: i32, b: &B) -> (r: i32)
        requires
            wrappable(limits(*b)),
        ensures
            r == fold_axis(v as int, limits(*b)),
            lower_incl(limits(*b).0).unwrap() <= r < upper_excl(limits(*b).1).unwrap(),
    {
        let start = b.lower_inclusive() as i64;
        let end = b.upper_exclusive() as i64;
        let len = end - start;
        let dv = v as i64 - start;
        let t = dv % len;
        proof {
            lemma_rem_fold(dv as int, len as int, t as int);
            lemma_fold(v as int, 0, start as int, end as int);
        }
        (((t + len) % len) + start) as i32
    }

    /// Where `coord` lands in the inner grid.
    pub fn wrap_coord(&self, coord: Coord3) -> (r: Coord3)
        requires
            self.wf(),
        ensures
            r == self.wrapped(coord),
            in_bounds_spec(self.inner(), r),
    {
        let x = Self::fold_value(coord.x, &self.inner.x_bound());
        let y = Self::fold_value(coord.y, &self.inner.y_bound());
        let z = Self::fold_value(coord.z, &self.inner.z_bound());
        Coord3 { x, y, z }
    }
}

impl<G> Grid3 for Grid3Wrapping<G> where G: Grid3, G::XBound: BoundRange, G::YBound: BoundRange, G::ZBound: BoundRange {
    type Item = G::Item;

    type XBound = RangeFull;

    type YBound = RangeFull;

    type ZBound = RangeFull;

    open spec fn wf(&self) -> bool {
        &&& wrappable(self.inner().x_limits())
        &&& wrappable(self.inner().y_limits())
        &&& wrappable(self.inner().z_limits())
        &&& self.inner().wf()
    }

    open spec fn x_limits(&self) -> (Limit, Limit) {
        (Limit::Unbounded, Limit::Unbounded)
    }

    open spec fn y_limits(&self) -> (Limit, Limit) {
        (Limit::Unbounded, Limit::Unbounded)
    }

    open spec fn z_limits(&self) -> (Limit, Limit) {
        (Limit::Unbounded, Limit::Unbounded)
    }

    fn x_bound(&self) -> (r: RangeFull) {
        let r = full_range();
        assert(limits(r) == (Limit::Unbounded, Limit::Unbounded));
        r
    }

    fn y_bound(&self) -> (r: RangeFull) {
        let r = full_range();
        assert(limits(r) == (Limit::Unbounded, Limit::Unbounded));
        r
    }

    fn z_bound(&self) -> (r: RangeFull) {
        let r = full_range();
        assert(limits(r) == (Limit::Unbounded, Limit::Unbounded));
        r
    }
}

impl<G> Grid3Get for Grid3Wrapping<G> where
    G: Grid3Get,
    G::XBound: BoundRange,
    G::YBound: BoundRange,
    G::ZBound: BoundRange,
 {
    open spec fn gives(&self, c: Coord3, v: G::Item) -> bool {
        self.inner().gives(self.wrapped(c), v)
    }

    fn get(&self, coord: Coord3) -> (r: G::Item) {
        let c = self.wrap_coord(coord);
        self.inner.get(c)
    }
}

impl<G> Grid3Ref for Grid3Wrapping<G> where
    G: Grid3Ref,
    G::XBound: BoundRange,
    G::YBound: BoundRange,
    G::ZBound: BoundRange,
 {
    open spec fn refers(&self, c: Coord3, v: G::Item) -> bool {
        self.inner().refers(self.wrapped(c), v)
    }

    fn idx(&self, coord: Coord3) -> (r: &G::Item) {
        let c = self.wrap_coord(coord);
        self.inner.idx(c)
    }
}

impl<G> Grid3Set for Grid3Wrapping<G> where
    G: Grid3Set,
    G::XBound: BoundRange,
    G::YBound: BoundRange,
    G::ZBound: BoundRange,
 {
    open spec fn sets(&self, c: Coord3, v: G::Item, after: Self) -> bool {
        self.inner().sets(self.wrapped(c), v, after.inner())
    }

    fn set(&mut self, coord: Coord3, elem: G::Item) {
        let c = self.wrap_coord(coord);
        self.inner.set(c, elem);
    }
}

impl<G> Grid3Mut for Grid3Wrapping<G> where
    G: Grid3Mut,
    G::XBound: BoundRange,
    G::YBound: BoundRange,
    G::ZBound: BoundRange,
 {
    open spec fn lends(&self, c: Coord3, cur: G::Item, fin: G::Item, after: Self) -> bool {
        self.inner().lends(self.wrapped(c), cur, fin, after.inner())
    }

    fn midx(&mut self, coord: Coord3) -> (r: &mut G::Item) {
        let c = self.wrap_coord(coord);
        self.inner.midx(c)
    }
}

/// Side length of a wrappable axis.
pub open spec fn period(l: (Limit, Limit)) -> int {
    upper_excl(l.1).unwrap() - lower_incl(l.0).unwrap()
}

/// Reading a wrapped grid at coordinates a whole number of periods apart gives the same
/// values: `get(x + k * W, y + j * H, z + i * D)` may return exactly what `get(x, y, z)` may
/// return, for negative `k`, `j` and `i` too, where `W`, `H` and `D` are the inner grid's
/// side lengths.
pub proof fn lemma_wrap_periodic<G>(g: Grid3Wrapping<G>, c: Coord3, k: int, j: int, i: int)
    where
        G: Grid3Get,
        G::XBound: BoundRange,
        G::YBound: BoundRange,
        G::ZBound: BoundRange,
    requires
        g.wf(),
        i32::MIN <= c.x + k * period(g.inner().x_limits()) <= i32::MAX,
        i32::MIN <= c.y + j * period(g.inner().y_limits()) <= i32::MAX,
        i32::MIN <= c.z + i * period(g.inner().z_limits()) <= i32::MAX,
    ensures
        ({
            let far = Coord3 {
                x: (c.x + k * period(g.inner().x_limits())) as i32,
                y: (c.y + j * period(g.inner().y_limits())) as i32,
                z: (c.z + i * period(g.inner().z_limits())) as i32,
            };
            &&& g.wrapped(far) == g.wrapped(c)
            &&& forall|v: G::Item| g.gives(far, v) <==> g.gives(c, v)
        }),
{
    let xl = g.inner().x_limits();
    let yl = g.inner().y_limits();
    let zl = g.inner().z_limits();
    lemma_fold(c.x as int, k, lower_incl(xl.0).unwrap(), upper_excl(xl.1).unwrap());
    lemma_fold(c.y as int, j, lower_incl(yl.0).unwrap(), upper_excl(yl.1).unwrap());
    lemma_fold(c.z as int, i, lower_incl(zl.0).unwrap(), upper_excl(zl.1).unwrap());
}

} // verus!
