//! Grid wrapping around edges.

use vstd::prelude::*;
use std::ops::RangeFull;
use crate::range::{full_range, lemma_rem_fold, limits, lower_incl, upper_excl, AxisBound, Limit};

pub use crate::range::BoundRange;
use crate::grid2::{in_bounds_spec, Coord, Grid2, Grid2Get, Grid2Mut, Grid2Ref, Grid2Set};

verus! {

/// Whether an axis with these limits is finite, non-empty, and ends within `i32`.
pub open spec fn wrappable(l: (Limit, Limit)) -> bool {
    &&& lower_incl(l.0) is Some
    &&& upper_excl(l.1) is Some
    &&& lower_incl(l.0).unwrap() < upper_excl(l.1).unwrap() <= i32::MAX
}

/// `v` folded into the half-open interval `[lo, hi)`.
pub open spec fn fold(v: int, lo: int, hi: int) -> int {
    lo + (v - lo) % (hi - lo)
}

/// `v` folded into the legal values of an axis with limits `l`.
pub open spec fn fold_axis(v: int, l: (Limit, Limit)) -> int {
    fold(v, lower_incl(l.0).unwrap(), upper_excl(l.1).unwrap())
}

/// Folding lands in `[lo, hi)` and ignores whole periods.
pub proof fn lemma_fold(v: int, k: int, lo: int, hi: int)
    requires
        lo < hi,
    ensures
        lo <= fold(v, lo, hi) < hi,
        fold(v + k * (hi - lo), lo, hi) == fold(v, lo, hi),
        lo <= v < hi ==> fold(v, lo, hi) == v,
{
    let n = hi - lo;
    vstd::arithmetic::div_mod::lemma_mod_multiples_vanish(k, v - lo, n);
    assert(v + k * n - lo == k * n + (v - lo));
    assert((v + k * n - lo) % n == (v - lo) % n);
    assert(fold(v + k * (hi - lo), lo, hi) == lo + (v + k * n - lo) % n);
    if lo <= v < hi {
        vstd::arithmetic::div_mod::lemma_small_mod((v - lo) as nat, n as nat);
    }
}

/// View of a grid which wraps around the edges.
///
/// The inner grid is bounded in all directions, and this
/// grid is completely unbounded.
pub struct Grid2Wrapping<G> where G: Grid2, G::XBound: BoundRange, G::YBound: BoundRange {
    inner: G,
}

impl<G> Grid2Wrapping<G> where G: Grid2, G::XBound: BoundRange, G::YBound: BoundRange {
    /// The wrapped grid.
    pub closed spec fn inner(&self) -> G {
        self.inner
    }

    /// Where `c` lands in the inner grid.
    pub open spec fn wrapped(&self, c: Coord) -> Coord {
        Coord {
            x: fold_axis(c.x as int, self.inner().x_limits()) as i32,
            y: fold_axis(c.y as int, self.inner().y_limits()) as i32,
        }
    }

    pub fn new(inner: G) -> (r: Self)
        requires
            inner.wf(),
            wrappable(inner.x_limits()),
            wrappable(inner.y_limits()),
        ensures
            r.inner() == inner,
            r.wf(),
    {
        Grid2Wrapping { inner }
    }

    /// Where `coord` lands in the inner grid.
    pub fn wrap_coord(&self, coord: Coord) -> (r: Coord)
        requires
            self.wf(),
        ensures
            r == self.wrapped(coord),
            in_bounds_spec(self.inner(), r),
    {
        let xb = self.inner.x_bound();
        let yb = self.inner.y_bound();
        let x_start = xb.lower_inclusive() as i64;
        let x_end = xb.upper_exclusive() as i64;
        let y_start = yb.lower_inclusive() as i64;
        let y_end = yb.upper_exclusive() as i64;
        let x_len = x_end - x_start;
        let y_len = y_end - y_start;
        let dx = coord.x as i64 - x_start;
        let dy = coord.y as i64 - y_start;
        let tx = dx % x_len;
        let ty = dy % y_len;
        proof {
            lemma_rem_fold(dx as int, x_len as int, tx as int);
            lemma_rem_fold(dy as int, y_len as int, ty as int);
            lemma_fold(coord.x as int, 0, x_start as int, x_end as int);
            lemma_fold(coord.y as int, 0, y_start as int, y_end as int);
        }
        let x = ((tx + x_len) % x_len) + x_start;
        let y = ((ty + y_len) % y_len) + y_start;
        Coord { x: x as i32, y: y as i32 }
    }
}

impl<G> Grid2 for Grid2Wrapping<G> where G: Grid2, G::XBound: BoundRange, G::YBound: BoundRange {
    type Item = G::Item;

    type XBound = RangeFull;

    type YBound = RangeFull;

    open spec fn wf(&self) -> bool {
        &&& wrappable(self.inner().x_limits())
        &&& wrappable(self.inner().y_limits())
        &&& self.inner().wf()
    }

    open spec fn x_limits(&self) -> (Limit, Limit) {
        (Limit::Unbounded, Limit::Unbounded)
    }

    open spec fn y_limits(&self) -> (Limit, Limit) {
        (Limit::Unbounded, Limit::Unbounded)
    }

    fn x_bound(&self) -> (r: RangeFull) {
        let r = full_range();
        assert(limits(r) == (Limit::Unbounded, Limit::Unbounded));
        r
    }

    fn y_bound(&self) -> (r: RangeFull) {
        let r = full_range();
        assert(limits(r) == (Limit::Unbounded, Limit::Unbounded));
        r
    }
}

impl<G> Grid2Get for Grid2Wrapping<G> where
    G: Grid2Get,
    G::XBound: BoundRange,
    G::YBound: BoundRange,
 {
    open spec fn gives(&self, c: Coord, v: G::Item) -> bool {
        self.inner().gives(self.wrapped(c), v)
    }

    fn get(&self, coord: Coord) -> (r: G::Item) {
        let c = self.wrap_coord(coord);
        self.inner.get(c)
    }
}

impl<G> Grid2Ref for Grid2Wrapping<G> where
    G: Grid2Ref,
    G::XBound: BoundRange,
    G::YBound: BoundRange,
 {
    open spec fn refers(&self, c: Coord, v: G::Item) -> bool {
        self.inner().refers(self.wrapped(c), v)
    }

    fn idx(&self, coord: Coord) -> (r: &G::Item) {
        let c = self.wrap_coord(coord);
        self.inner.idx(c)
    }
}

impl<G> Grid2Set for Grid2Wrapping<G> where
    G: Grid2Set,
    G::XBound: BoundRange,
    G::YBound: BoundRange,
 {
    open spec fn sets(&self, c: Coord, v: G::Item, after: Self) -> bool {
        self.inner().sets(self.wrapped(c), v, after.inner())
    }

    fn set(&mut self, coord: Coord, elem: G::Item) {
        let c = self.wrap_coord(coord);
        self.inner.set(c, elem);
    }
}

impl<G> Grid2Mut for Grid2Wrapping<G> where
    G: Grid2Mut,
    G::XBound: BoundRange,
    G::YBound: BoundRange,
 {
    open spec fn lends(&self, c: Coord, cur: G::Item, fin: G::Item, after: Self) -> bool {
        self.inner().lends(self.wrapped(c), cur, fin, after.inner())
    }

    fn midx(&mut self, coord: Coord) -> (r: &mut G::Item) {
        let c = self.wrap_coord(coord);
        self.inner.midx(c)
    }
}

/// Reading a wrapped grid at coordinates a whole number of periods apart gives the same
/// values: `get(x + k * W, y + j * H)` may return exactly what `get(x, y)` may return,
/// for negative `k` and `j` too, where `W` and `H` are the inner grid's side lengths.
pub proof fn lemma_wrap_periodic<G>(g: Grid2Wrapping<G>, x: int, y: int, k: int, j: int)
    where
        G: Grid2Get,
        G::XBound: BoundRange,
        G::YBound: BoundRange,
    requires
        g.wf(),
        i32::MIN <= x <= i32::MAX,
        i32::MIN <= y <= i32::MAX,
        i32::MIN <= x + k * (upper_excl(g.inner().x_limits().1).unwrap() - lower_incl(
            g.inner().x_limits().0,
        ).unwrap()) <= i32::MAX,
        i32::MIN <= y + j * (upper_excl(g.inner().y_limits().1).unwrap() - lower_incl(
            g.inner().y_limits().0,
        ).unwrap()) <= i32::MAX,
    ensures
        ({
            let w = upper_excl(g.inner().x_limits().1).unwrap() - lower_incl(
                g.inner().x_limits().0,
            ).unwrap();
            let h = upper_excl(g.inner().y_limits().1).unwrap() - lower_incl(
                g.inner().y_limits().0,
            ).unwrap();
            let far = Coord { x: (x + k * w) as i32, y: (y + j * h) as i32 };
            let near = Coord { x: x as i32, y: y as i32 };
            &&& g.wrapped(far) == g.wrapped(near)
            &&& forall|v: G::Item| g.gives(far, v) <==> g.gives(near, v)
        }),
{
    let xl = g.inner().x_limits();
    let yl = g.inner().y_limits();
    lemma_fold(x, k, lower_incl(xl.0).unwrap(), upper_excl(xl.1).unwrap());
    lemma_fold(y, j, lower_incl(yl.0).unwrap(), upper_excl(yl.1).unwrap());
}

} // verus!
