//! Map-with index, aka. enumap, because it's like enumerate + map.

use vstd::prelude::*;
use std::marker::PhantomData;
use crate::range::Limit;
use crate::grid2::{Coord, Grid2, Grid2Get, Grid2Len};

verus! {

/// Mapping of a grid's values through a function that also sees each coordinate.
#[verifier::reject_recursive_types(G)]
#[verifier::reject_recursive_types(F)]
#[verifier::reject_recursive_types(T)]
pub struct Grid2EnuMap<G, F, T> where G: Grid2, F: Fn(Coord, G::Item) -> T {
    inner: G,
    func: F,
    p: PhantomData<T>,
}

impl<G, F, T> Grid2EnuMap<G, F, T> where G: Grid2, F: Fn(Coord, G::Item) -> T {
    /// The mapped grid.
    pub closed spec fn inner(&self) -> G {
        self.inner
    }

    /// The function applied to each coordinate and element read.
    pub closed spec fn func(&self) -> F {
        self.func
    }

    pub fn new(inner: G, func: F) -> (r: Self)
        requires
            inner.wf(),
            forall|c: Coord, v: G::Item| #[trigger] func.requires((c, v)),
        ensures
            r.wf(),
            r.inner() == inner,
            r.func() == func,
    {
        Grid2EnuMap { inner, func, p: PhantomData }
    }
}

impl<G, F, T> Grid2 for Grid2EnuMap<G, F, T> where G: Grid2, F: Fn(Coord, G::Item) -> T {
    type Item = T;

    type XBound = G::XBound;

    type YBound = G::YBound;

    open spec fn wf(&self) -> bool {
        &&& self.inner().wf()
        &&& forall|c: Coord, v: G::Item| #[trigger] self.func().requires((c, v))
    }

    open spec fn x_limits(&self) -> (Limit, Limit) {
        self.inner().x_limits()
    }

    open spec fn y_limits(&self) -> (Limit, Limit) {
        self.inner().y_limits()
    }

    fn x_bound(&self) -> (r: G::XBound) {
        self.inner.x_bound()
    }

    fn y_bound(&self) -> (r: G::YBound) {
        self.inner.y_bound()
    }
}

impl<G, F, T> Grid2Len for Grid2EnuMap<G, F, T> where G: Grid2Len, F: Fn(Coord, G::Item) -> T {
}

impl<G, F, T> Grid2Get for Grid2EnuMap<G, F, T> where G: Grid2Get, F: Fn(Coord, G::Item) -> T {
    open spec fn gives(&self, c: Coord, v: T) -> bool {
        exists|u: G::Item| #[trigger] self.inner().gives(c, u) && self.func().ensures((c, u), v)
    }

    fn get(&self, coord: Coord) -> (r: T) {
        let u = self.inner.get(coord);
        assert(self.func().requires((coord, u)));
        (self.func)(coord, u)
    }
}

} // verus!
