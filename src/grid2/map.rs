//! Dependent by-value Grid2 mapping.

use vstd::prelude::*;
use std::marker::PhantomData;
use crate::range::Limit;
use crate::grid2::{in_bounds_spec, Coord, Grid2, Grid2Get, Grid2Len};

verus! {

/// Element-by-element mapping of a grid's values through a function.
#[verifier::reject_recursive_types(G)]
#[verifier::reject_recursive_types(F)]
#[verifier::reject_recursive_types(T)]
pub struct Grid2Map<G, F, T> where G: Grid2, F: Fn(G::Item) -> T {
    inner: G,
    func: F,
    p: PhantomData<T>,
}

impl<G, F, T> Grid2Map<G, F, T> where G: Grid2, F: Fn(G::Item) -> T {
    /// The mapped grid.
    pub closed spec fn inner(&self) -> G {
        self.inner
    }

    /// The function applied to each element read.
    pub closed spec fn func(&self) -> F {
        self.func
    }

    pub fn new(inner: G, func: F) -> (r: Self)
        requires
            inner.wf(),
            forall|v: G::Item| #[trigger] func.requires((v,)),
        ensures
            r.wf(),
            r.inner() == inner,
            r.func() == func,
    {
        Grid2Map { inner, func, p: PhantomData }
    }
}

impl<G, F, T> Grid2 for Grid2Map<G, F, T> where G: Grid2, F: Fn(G::Item) -> T {
    type Item = T;

    type XBound = G::XBound;

    type YBound = G::YBound;

    open spec fn wf(&self) -> bool {
        &&& self.inner().wf()
        &&& forall|v: G::Item| #[trigger] self.func().requires((v,))
    }

    open spec fn x_limits(&self) -> (Limit, Limit) {
        self.inner().x_limits()
    }

    open spec fn y_limits(&self) -> (Limit, Limit) {
        self.inner().y_limits()
    }

    fn x_bound(&self) -> (r: G::XBound) {
        self.inner.x_bound()
    }

    fn y_bound(&self) -> (r: G::YBound) {
        self.inner.y_bound()
    }
}

impl<G, F, T> Grid2Len for Grid2Map<G, F, T> where G: Grid2Len, F: Fn(G::Item) -> T {
}

impl<G, F, T> Grid2Get for Grid2Map<G, F, T> where G: Grid2Get, F: Fn(G::Item) -> T {
    open spec fn gives(&self, c: Coord, v: T) -> bool {
        exists|u: G::Item| #[trigger] self.inner().gives(c, u) && self.func().ensures((u,), v)
    }

    fn get(&self, coord: Coord) -> (r: T) {
        let u = self.inner.get(coord);
        assert(self.func().requires((u,)));
        (self.func)(u)
    }
}

/// Mapping keeps the bounds, and reading a mapped grid at an in-bounds `c` gives `f` of what
/// reading the source grid at `c` gives.
pub proof fn lemma_map_pure<G, F, T>(m: Grid2Map<G, F, T>, c: Coord)
    where
        G: Grid2Get,
        F: Fn(G::Item) -> T,
    requires
        m.wf(),
        in_bounds_spec(m, c),
    ensures
        m.x_limits() == m.inner().x_limits(),
        m.y_limits() == m.inner().y_limits(),
        in_bounds_spec(m.inner(), c),
        forall|v: T|
            m.gives(c, v) <==> exists|u: G::Item|
                #[trigger] m.inner().gives(c, u) && m.func().ensures((u,), v),
{
}

} // verus!
