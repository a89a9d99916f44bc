//! Kolmogorov encoding of Grid3.

use vstd::prelude::*;
use std::marker::PhantomData;
use std::ops::RangeFull;
use crate::range::{full_range, limits, AxisBound, Limit};
use crate::grid3::{Coord3, Grid3, Grid3Get};

verus! {

/// Kolmogorov encoding of Grid3.
///
/// This is a Grid3 implementation which only stores a
/// function from coordinate to value. It is subsequently
/// unbounded.
#[verifier::reject_recursive_types(F)]
#[verifier::reject_recursive_types(T)]
pub struct KolmoGrid3<F, T> where F: Fn(Coord3) -> T {
    func: F,
    p: PhantomData<T>,
}

impl<F, T> KolmoGrid3<F, T> where F: Fn(Coord3) -> T {
    /// The function each read calls.
    pub closed spec fn func(&self) -> F {
        self.func
    }

    pub fn new(func: F) -> (r: Self)
        requires
            forall|c: Coord3| #[trigger] func.requires((c,)),
        ensures
            r.wf(),
            r.func() == func,
    {
        KolmoGrid3 { func, p: PhantomData }
    }
}

impl<F, T> Grid3 for KolmoGrid3<F, T> where F: Fn(Coord3) -> T {
    type Item = T;

    type XBound = RangeFull;

    type YBound = RangeFull;

    type ZBound = RangeFull;

    /// The function accepts every coordinate.
    closed spec fn wf(&self) -> bool {
        forall|c: Coord3| #[trigger] self.func.requires((c,))
    }

    open spec fn x_limits(&self) -> (Limit, Limit) {
        (Limit::Unbounded, Limit::Unbounded)
    }

    open spec fn y_limits(&self) -> (Limit, Limit) {
        (Limit::Unbounded, Limit::Unbounded)
    }

    open spec fn z_limits(&self) -> (Limit, Limit) {
        (Limit::Unbounded, Limit::Unbounded)
    }

    fn x_bound(&self) -> (r: RangeFull) {
        let r = full_range();
        assert(limits(r) == (Limit::Unbounded, Limit::Unbounded));
        r
    }

    fn y_bound(&self) -> (r: RangeFull) {
        let r = full_range();
        assert(limits(r) == (Limit::Unbounded, Limit::Unbounded));
        r
    }

    fn z_bound(&self) -> (r: RangeFull) {
        let r = full_range();
        assert(limits(r) == (Limit::Unbounded, Limit::Unbounded));
        r
    }
}

impl<F, T> Grid3Get for KolmoGrid3<F, T> where F: Fn(Coord3) -> T {
    open spec fn gives(&self, c: Coord3, v: T) -> bool {
        self.func().ensures((c,), v)
    }

    fn get(&self, coord: Coord3) -> (r: T) {
        (self.func)(coord)
    }
}

} // verus!
