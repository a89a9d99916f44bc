//! Kolmogorov encoding of Grid2.

use vstd::prelude::*;
use std::marker::PhantomData;
use std::ops::RangeFull;
use crate::range::{full_range, limits, AxisBound, Limit};
use crate::grid2::{Coord, Grid2, Grid2Get};

verus! {

/// Kolmogorov encoding of Grid2.
///
/// This is a Grid2 implementation which only stores a
/// function from coordinate to value. It is subsequently
/// unbounded.
#[verifier::reject_recursive_types(F)]
#[verifier::reject_recursive_types(T)]
pub struct KolmoGrid2<F, T> where F: Fn(Coord) -> T {
    func: F,
    p: PhantomData<T>,
}

impl<F, T> KolmoGrid2<F, T> where F: Fn(Coord) -> T {
    /// The function each read calls.
    pub closed spec fn func(&self) -> F {
        self.func
    }

    pub fn new(func: F) -> (r: Self)
        requires
            forall|c: Coord| #[trigger] func.requires((c,)),
        ensures
            r.wf(),
            r.func() == func,
    {
        KolmoGrid2 { func, p: PhantomData }
    }
}

impl<F, T> Grid2 for KolmoGrid2<F, T> where F: Fn(Coord) -> T {
    type Item = T;

    type XBound = RangeFull;

    type YBound = RangeFull;

    /// The function accepts every coordinate.
    closed spec fn wf(&self) -> bool {
        forall|c: Coord| #[trigger] self.func.requires((c,))
    }

    open spec fn x_limits(&self) -> (Limit, Limit) {
        (Limit::Unbounded, Limit::Unbounded)
    }

    open spec fn y_limits(&self) -> (Limit, Limit) {
        (Limit::Unbounded, Limit::Unbounded)
    }

    fn x_bound(&self) -> (r: RangeFull) {
        let r = full_range();
        assert(limits(r) == (Limit::Unbounded, Limit::Unbounded));
        r
    }

    fn y_bound(&self) -> (r: RangeFull) {
        let r = full_range();
        assert(limits(r) == (Limit::Unbounded, Limit::Unbounded));
        r
    }
}

impl<F, T> Grid2Get for KolmoGrid2<F, T> where F: Fn(Coord) -> T {
    open spec fn gives(&self, c: Coord, v: T) -> bool {
        self.func().ensures((c,), v)
    }

    fn get(&self, coord: Coord) -> (r: T) {
        (self.func)(coord)
    }
}

} // verus!
