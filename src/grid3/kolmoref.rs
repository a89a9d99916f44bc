//! Kolmogorov by-reference encoding of Grid3.

use vstd::prelude::*;
use std::marker::PhantomData;
use std::ops::RangeFull;
use crate::range::{full_range, limits, AxisBound, Limit};
use crate::grid3::{Coord3, Grid3, Grid3Get, Grid3Ref};

verus! {

/// Kolmogorov by-reference encoding of Grid3.
///
/// This is a Grid3 implementation which only stores a
/// function from coordinate to a reference. It is subsequently
/// unbounded.
#[verifier::reject_recursive_types(F)]
#[verifier::reject_recursive_types(T)]
pub struct KolmoRefGrid3<'a, F, T> where F: Fn(Coord3) -> &'a T, T: 'a {
    func: F,
    p: PhantomData<&'a T>,
}

impl<'a, F, T> KolmoRefGrid3<'a, F, T> where F: Fn(Coord3) -> &'a T, T: 'a {
    /// The function each access calls.
    pub closed spec fn func(&self) -> F {
        self.func
    }

    pub fn new(func: F) -> (r: Self)
        requires
            forall|c: Coord3| #[trigger] func.requires((c,)),
        ensures
            r.wf(),
            r.func() == func,
    {
        KolmoRefGrid3 { func, p: PhantomData }
    }
}

impl<'a, F, T> Grid3 for KolmoRefGrid3<'a, F, T> where F: Fn(Coord3) -> &'a T, T: 'a {
    type Item = T;

    type XBound = RangeFull;

    type YBound = RangeFull;

    type ZBound = RangeFull;

    /// The function accepts every coordinate.
    closed spec fn wf(&self) -> bool {
        forall|c: Coord3| #[trigger] self.func.requires((c,))
    }

    open spec fn x_limits(&self) -> (Limit, Limit) {
        (Limit::Unbounded, Limit::Unbounded)
    }

    open spec fn y_limits(&self) -> (Limit, Limit) {
        (Limit::Unbounded, Limit::Unbounded)
    }

    open spec fn z_limits(&self) -> (Limit, Limit) {
        (Limit::Unbounded, Limit::Unbounded)
    }

    fn x_bound(&self) -> (r: RangeFull) {
        let r = full_range();
        assert(limits(r) == (Limit::Unbounded, Limit::Unbounded));
        r
    }

    fn y_bound(&self) -> (r: RangeFull) {
        let r = full_range();
        assert(limits(r) == (Limit::Unbounded, Limit::Unbounded));
        r
    }

    fn z_bound(&self) -> (r: RangeFull) {
        let r = full_range();
        assert(limits(r) == (Limit::Unbounded, Limit::Unbounded));
        r
    }
}

impl<'a, F, T> Grid3Ref for KolmoRefGrid3<'a, F, T> where F: Fn(Coord3) -> &'a T, T: 'a {
    open spec fn refers(&self, c: Coord3, v: T) -> bool {
        self.func().ensures((c,), &v)
    }

    fn idx(&self, coord: Coord3) -> (r: &T) {
        (self.func)(coord)
    }
}

impl<'a, F, T> Grid3Get for KolmoRefGrid3<'a, F, T> where F: Fn(Coord3) -> &'a T, T: 'a + Clone {
    open spec fn gives(&self, c: Coord3, v: T) -> bool {
        exists|u: T| self.refers(c, u) && #[trigger] cloned(u, v)
    }

    fn get(&self, coord: Coord3) -> (r: T) {
        let u = self.idx(coord);
        let r = u.clone();
        assert(cloned(*u, r));
        r
    }
}

} // verus!
