//! Dependent by-value Grid3 mapping.

use vstd::prelude::*;
use std::marker::PhantomData;
use crate::range::Limit;
use crate::grid3::{in_bounds_spec, Coord3, Grid3, Grid3Get, Grid3Len};

verus! {

/// Element-by-element mapping of a grid's values through a function.
#[verifier::reject_recursive_types(G)]
#[verifier::reject_recursive_types(F)]
#[verifier::reject_recursive_types(T)]
pub struct Grid3Map<G, F, T> where G: Grid3, F: Fn(G::Item) -> T {
    inner: G,
    func: F,
    p: PhantomData<T>,
}

impl<G, F, T> Grid3Map<G, F, T> where G: Grid3, F: Fn(G::Item) -> T {
    /// The mapped grid.
    pub closed spec fn inner(&self) -> G {
        self.inner
    }

    /// The function applied to each element read.
    pub closed spec fn func(&self) -> F {
        self.func
    }

    pub fn new(inner: G, func: F) -> (r: Self)
        requires
            inner.wf(),
            forall|v: G::Item| #[trigger] func.requires((v,)),
        ensures
            r.wf(),
            r.inner() == inner,
            r.func() == func,
    {
        Grid3Map { inner, func, p: PhantomData }
    }
}

impl<G, F, T> Grid3 for Grid3Map<G, F, T> where G: Grid3, F: Fn(G::Item) -> T {
    type Item = T;

    type XBound = G::XBound;

    type YBound = G::YBound;

    type ZBound = G::ZBound;

    open spec fn wf(&self) -> bool {
        &&& self.inner().wf()
        &&& forall|v: G::Item| #[trigger] self.func().requires((v,))
    }

    open spec fn x_limits(&self) -> (Limit, Limit) {
        self.inner().x_limits()
    }

    open spec fn y_limits(&self) -> (Limit, Limit) {
        self.inner().y_limits()
    }

    open spec fn z_limits(&self) -> (Limit, Limit) {
        self.inner().z_limits()
    }

    fn x_bound(&self) -> (r: G::XBound) {
        self.inner.x_bound()
    }

    fn y_bound(&self) -> (r: G::YBound) {
        self.inner.y_bound()
    }

    fn z_bound(&self) -> (r: G::ZBound) {
        self.inner.z_bound()
    }
}

impl<G, F, T> Grid3Len for Grid3Map<G, F, T> where G: Grid3Len, F: Fn(G::Item) -> T {
}

impl<G, F, T> Grid3Get for Grid3Map<G, F, T> where G: Grid3Get, F: Fn(G::Item) -> T {
    open spec fn gives(&self, c: Coord3, v: T) -> bool {
        exists|u: G::Item| #[trigger] self.inner().gives(c, u) && self.func().ensures((u,), v)
    }

    fn get(&self, coord: Coord3) -> (r: T) {
        let u = self.inner.get(coord);
        assert(self.func().requires((u,)));
        (self.func)(u)
    }
}

/// Mapping keeps the bounds, and reading a mapped grid at an in-bounds `c` gives `f` of what
/// reading the source grid at `c` gives.
pub proof fn lemma_map_pure<G, F, T>(m: Grid3Map<G, F, T>, c: Coord3)
    where
        G: Grid3Get,
        F: Fn(G::Item) -> T,
    requires
        m.wf(),
        in_bounds_spec(m, c),
    ensures
        m.x_limits() == m.inner().x_limits(),
        m.y_limits() == m.inner().y_limits(),
        m.z_limits() == m.inner().z_limits(),
        in_bounds_spec(m.inner(), c),
        forall|v: T|
            m.gives(c, v) <==> exists|u: G::Item|
                #[trigger] m.inner().gives(c, u) && m.func().ensures((u,), v),
{
}

} // verus!
