//! Map-with index, aka. enumap, because it's like enumerate + map.

use vstd::prelude::*;
use std::marker::PhantomData;
use crate::range::Limit;
use crate::grid3::{Coord3, Grid3, Grid3Get, Grid3Len};

verus! {

/// Mapping of a grid's values through a function that also sees each coordinate.
#[verifier::reject_recursive_types(G)]
#[verifier::reject_recursive_types(F)]
#[verifier::reject_recursive_types(T)]
pub struct Grid3EnuMap<G, F, T> where G: Grid3, F: Fn(Coord3, G::Item) -> T {
    inner: G,
    func: F,
    p: PhantomData<T>,
}

impl<G, F, T> Grid3EnuMap<G, F, T> where G: Grid3, F: Fn(Coord3, G::Item) -> T {
    /// The mapped grid.
    pub closed spec fn inner(&self) -> G {
        self.inner
    }

    /// The function applied to each coordinate and element read.
    pub closed spec fn func(&self) -> F {
        self.func
    }

    pub fn new(inner: G, func: F) -> (r: Self)
        requires
            inner.wf(),
            forall|c: Coord3, v: G::Item| #[trigger] func.requires((c, v)),
        ensures
            r.wf(),
            r.inner() == inner,
            r.func() == func,
    {
        Grid3EnuMap { inner, func, p: PhantomData }
    }
}

impl<G, F, T> Grid3 for Grid3EnuMap<G, F, T> where G: Grid3, F: Fn(Coord3, G::Item) -> T {
    type Item = T;

    type XBound = G::XBound;

    type YBound = G::YBound;

    type ZBound = G::ZBound;

    open spec fn wf(&self) -> bool {
        &&& self.inner().wf()
        &&& forall|c: Coord3, v: G::Item| #[trigger] self.func().requires((c, v))
    }

    open spec fn x_limits(&self) -> (Limit, Limit) {
        self.inner().x_limits()
    }

    open spec fn y_limits(&self) -> (Limit, Limit) {
        self.inner().y_limits()
    }

    open spec fn z_limits(&self) -> (Limit, Limit) {
        self.inner().z_limits()
    }

    fn x_bound(&self) -> (r: G::XBound) {
        self.inner.x_bound()
    }

    fn y_bound(&self) -> (r: G::YBound) {
        self.inner.y_bound()
    }

    fn z_bound(&self) -> (r: G::ZBound) {
        self.inner.z_bound()
    }
}

impl<G, F, T> Grid3Len for Grid3EnuMap<G, F, T> where G: Grid3Len, F: Fn(Coord3, G::Item) -> T {
}

impl<G, F, T> Grid3Get for Grid3EnuMap<G, F, T> where G: Grid3Get, F: Fn(Coord3, G::Item) -> T {
    open spec fn gives(&self, c: Coord3, v: T) -> bool {
        exists|u: G::Item| #[trigger] self.inner().gives(c, u) && self.func().ensures((c, u), v)
    }

    fn get(&self, coord: Coord3) -> (r: T) {
        let u = self.inner.get(coord);
        assert(self.func().requires((coord, u)));
        (self.func)(coord, u)
    }
}

} // verus!
