//! Out-of-bounds index handler.

use vstd::prelude::*;
use std::ops::RangeFull;
use crate::range::{full_range, limits, Limit};
use crate::grid2::{in_bounds_spec, Coord, Grid2, Grid2Get};

verus! {

/// All values outside of a grid are supplied by a function.
#[verifier::reject_recursive_types(G)]
#[verifier::reject_recursive_types(F)]
pub struct Grid2OobHandler<G, F> where G: Grid2, F: Fn(Coord) -> G::Item {
    inner: G,
    func: F,
}

impl<G, F> Grid2OobHandler<G, F> where G: Grid2, F: Fn(Coord) -> G::Item {
    /// The grid read inside its bounds.
    pub closed spec fn inner(&self) -> G {
        self.inner
    }

    /// The function read outside the inner grid's bounds.
    pub closed spec fn func(&self) -> F {
        self.func
    }

    pub fn new(inner: G, func: F) -> (r: Self)
        requires
            inner.wf(),
            forall|c: Coord| #[trigger] func.requires((c,)),
        ensures
            r.wf(),
            r.inner() == inner,
            r.func() == func,
    {
        Grid2OobHandler { inner, func }
    }
}

impl<G, F> Grid2 for Grid2OobHandler<G, F> where G: Grid2, F: Fn(Coord) -> G::Item {
    type Item = G::Item;

    type XBound = RangeFull;

    type YBound = RangeFull;

    open spec fn wf(&self) -> bool {
        &&& self.inner().wf()
        &&& forall|c: Coord| #[trigger] self.func().requires((c,))
    }

    open spec fn x_limits(&self) -> (Limit, Limit) {
        (Limit::Unbounded, Limit::Unbounded)
    }

    open spec fn y_limits(&self) -> (Limit, Limit) {
        (Limit::Unbounded, Limit::Unbounded)
    }

    fn x_bound(&self) -> (r: RangeFull) {
        let r = full_range();
        assert(limits(r) == (Limit::Unbounded, Limit::Unbounded));
        r
    }

    fn y_bound(&self) -> (r: RangeFull) {
        let r = full_range();
        assert(limits(r) == (Limit::Unbounded, Limit::Unbounded));
        r
    }
}

impl<G, F> Grid2Get for Grid2OobHandler<G, F> where G: Grid2Get, F: Fn(Coord) -> G::Item {
    open spec fn gives(&self, c: Coord, v: G::Item) -> bool {
        if in_bounds_spec(self.inner(), c) {
            self.inner().gives(c, v)
        } else {
            self.func().ensures((c,), v)
        }
    }

    fn get(&self, coord: Coord) -> (r: G::Item) {
        if self.inner.in_bounds(coord) {
            self.inner.get(coord)
        } else {
            assert(self.func().requires((coord,)));
            (self.func)(coord)
        }
    }
}

} // verus!
