//! Kolmogorov by-mutable-reference encoding of Grid2.

use vstd::prelude::*;
use std::marker::PhantomData;
use std::ops::RangeFull;
use crate::range::{full_range, limits, Limit};
use crate::grid2::{Coord, Grid2, Grid2Mut, Grid2Set};

verus! {

/// Kolmogorov by-mutable-reference encoding of Grid2.
///
/// This is a Grid2 implementation which only stores a
/// function from coordinate to a mutable reference. It is
/// subsequently unbounded.
#[verifier::reject_recursive_types(F)]
#[verifier::reject_recursive_types(T)]
pub struct KolmoMutGrid2<'a, F, T> where F: Fn(Coord) -> &'a mut T, T: 'a {
    func: F,
    p: PhantomData<&'a mut T>,
}

impl<'a, F, T> KolmoMutGrid2<'a, F, T> where F: Fn(Coord) -> &'a mut T, T: 'a {
    /// The function each access calls.
    pub closed spec fn func(&self) -> F {
        self.func
    }

    pub fn new(func: F) -> (r: Self)
        requires
            forall|c: Coord| #[trigger] func.requires((c,)),
        ensures
            r.wf(),
            r.func() == func,
    {
        KolmoMutGrid2 { func, p: PhantomData }
    }
}

impl<'a, F, T> Grid2 for KolmoMutGrid2<'a, F, T> where F: Fn(Coord) -> &'a mut T, T: 'a {
    type Item = T;

    type XBound = RangeFull;

    type YBound = RangeFull;

    open spec fn wf(&self) -> bool {
        forall|c: Coord| #[trigger] self.func().requires((c,))
    }

    open spec fn x_limits(&self) -> (Limit, Limit) {
        (Limit::Unbounded, Limit::Unbounded)
    }

    open spec fn y_limits(&self) -> (Limit, Limit) {
        (Limit::Unbounded, Limit::Unbounded)
    }

    fn x_bound(&self) -> (r: RangeFull) {
        let r = full_range();
        assert(limits(r) == (Limit::Unbounded, Limit::Unbounded));
        r
    }

    fn y_bound(&self) -> (r: RangeFull) {
        let r = full_range();
        assert(limits(r) == (Limit::Unbounded, Limit::Unbounded));
        r
    }
}

impl<'a, F, T> Grid2Mut for KolmoMutGrid2<'a, F, T> where F: Fn(Coord) -> &'a mut T, T: 'a {
    /// The grid itself stays as it is; the element lives wherever the function points.
    open spec fn lends(&self, c: Coord, cur: T, fin: T, after: Self) -> bool {
        &&& after == *self
        &&& exists|m: &mut T| #[trigger] self.func().ensures((c,), m) && *m == cur
    }

    fn midx(&mut self, coord: Coord) -> (r: &mut T) {
        assert(self.func().requires((coord,)));
        (self.func)(coord)
    }
}

impl<'a, F, T> Grid2Set for KolmoMutGrid2<'a, F, T> where F: Fn(Coord) -> &'a mut T, T: 'a {
    /// The grid itself stays as it is; the element lives wherever the function points.
    open spec fn sets(&self, c: Coord, v: T, after: Self) -> bool {
        after == *self
    }

    fn set(&mut self, coord: Coord, elem: T) {
        assert(self.func().requires((coord,)));
        let m = (self.func)(coord);
        *m = elem;
    }
}

} // verus!
