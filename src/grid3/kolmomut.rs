//! Kolmogorov by-mutable-reference encoding of Grid3.

use vstd::prelude::*;
use std::marker::PhantomData;
use std::ops::RangeFull;
use crate::range::{full_range, limits, Limit};
use crate::grid3::{Coord3, Grid3, Grid3Mut, Grid3Set};

verus! {

/// Kolmogorov by-mutable-reference encoding of Grid3.
///
/// This is a Grid3 implementation which only stores a
/// function from coordinate to a mutable reference. It is
/// subsequently unbounded.
#[verifier::reject_recursive_types(F)]
#[verifier::reject_recursive_types(T)]
pub struct KolmoMutGrid3<'a, F, T> where F: Fn(Coord3) -> &'a mut T, T: 'a {
    func: F,
    p: PhantomData<&'a mut T>,
}

impl<'a, F, T> KolmoMutGrid3<'a, F, T> where F: Fn(Coord3) -> &'a mut T, T: 'a {
    /// The function each access calls.
    pub closed spec fn func(&self) -> F {
        self.func
    }

    pub fn new(func: F) -> (r: Self)
        requires
            forall|c: Coord3| #[trigger] func.requires((c,)),
        ensures
            r.wf(),
            r.func() == func,
    {
        KolmoMutGrid3 { func, p: PhantomData }
    }
}

impl<'a, F, T> Grid3 for KolmoMutGrid3<'a, F, T> where F: Fn(Coord3) -> &'a mut T, T: 'a {
    type Item = T;

    type XBound = RangeFull;

    type YBound = RangeFull;

    type ZBound = RangeFull;

    open spec fn wf(&self) -> bool {
        forall|c: Coord3| #[trigger] self.func().requires((c,))
    }

    open spec fn x_limits(&self) -> (Limit, Limit) {
        (Limit::Unbounded, Limit::Unbounded)
    }

    open spec fn y_limits(&self) -> (Limit, Limit) {
        (Limit::Unbounded, Limit::Unbounded)
    }

    open spec fn z_limits(&self) -> (Limit, Limit) {
        (Limit::Unbounded, Limit::Unbounded)
    }

    fn x_bound(&self) -> (r: RangeFull) {
        let r = full_range();
        assert(limits(r) == (Limit::Unbounded, Limit::Unbounded));
        r
    }

    fn y_bound(&self) -> (r: RangeFull) {
        let r = full_range();
        assert(limits(r) == (Limit::Unbounded, Limit::Unbounded));
        r
    }

    fn z_bound(&self) -> (r: RangeFull) {
        let r = full_range();
        assert(limits(r) == (Limit::Unbounded, Limit::Unbounded));
        r
    }
}

impl<'a, F, T> Grid3Mut for KolmoMutGrid3<'a, F, T> where F: Fn(Coord3) -> &'a mut T, T: 'a {
    /// The grid itself stays as it is; the element lives wherever the function points.
    open spec fn lends(&self, c: Coord3, cur: T, fin: T, after: Self) -> bool {
        &&& after == *self
        &&& exists|m: &mut T| #[trigger] self.func().ensures((c,), m) && *m == cur
    }

    fn midx(&mut self, coord: Coord3) -> (r: &mut T) {
        assert(self.func().requires((coord,)));
        (self.func)(coord)
    }
}

impl<'a, F, T> Grid3Set for KolmoMutGrid3<'a, F, T> where F: Fn(Coord3) -> &'a mut T, T: 'a {
    /// The grid itself stays as it is; the element lives wherever the function points.
    open spec fn sets(&self, c: Coord3, v: T, after: Self) -> bool {
        after == *self
    }

    fn set(&mut self, coord: Coord3, elem: T) {
        assert(self.func().requires((coord,)));
        let m = (self.func)(coord);
        *m = elem;
    }
}

} // verus!
