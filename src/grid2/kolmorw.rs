//! Kolmogorov by-reference read/write encoding of Grid2.

use vstd::prelude::*;
use std::marker::PhantomData;
use std::ops::RangeFull;
use crate::range::{full_range, limits, Limit};
use crate::grid2::{Coord, Grid2, Grid2Get, Grid2Mut, Grid2Ref, Grid2Set};

verus! {

/// Kolmogorov by-reference read/write encoding of Grid2.
///
/// This grid owns a single *referent* value, and reads and writes
/// its elements through a *reader* and a *writer* function which
/// borrow them from the referent. The two must address the same
/// element for each coordinate; that is the caller's to uphold.
/// It is unbounded.
#[verifier::reject_recursive_types(R)]
#[verifier::reject_recursive_types(T)]
#[verifier::reject_recursive_types(Fr)]
#[verifier::reject_recursive_types(Fw)]
pub struct KolmoRwGrid2<R, T, Fr, Fw> where
    Fr: Fn(Coord, &R) -> &T,
    Fw: Fn(Coord, &mut R) -> &mut T,
 {
    referent: R,
    reader: Fr,
    writer: Fw,
    p: PhantomData<T>,
}

impl<R, T, Fr, Fw> KolmoRwGrid2<R, T, Fr, Fw> where
    Fr: Fn(Coord, &R) -> &T,
    Fw: Fn(Coord, &mut R) -> &mut T,
 {
    /// The owned state that both functions borrow from.
    pub closed spec fn referent(&self) -> R {
        self.referent
    }

    /// The function that reads elements.
    pub closed spec fn reader(&self) -> Fr {
        self.reader
    }

    /// The function that writes elements.
    pub closed spec fn writer(&self) -> Fw {
        self.writer
    }

    pub fn new(referent: R, reader: Fr, writer: Fw) -> (r: Self)
        requires
            forall|c: Coord, s: &R| #[trigger] reader.requires((c, s)),
            forall|c: Coord, s: &mut R| #[trigger] writer.requires((c, s)),
        ensures
            r.wf(),
            r.referent() == referent,
            r.reader() == reader,
            r.writer() == writer,
    {
        KolmoRwGrid2 { referent, reader, writer, p: PhantomData }
    }
}

impl<R, T, Fr, Fw> Grid2 for KolmoRwGrid2<R, T, Fr, Fw> where
    Fr: Fn(Coord, &R) -> &T,
    Fw: Fn(Coord, &mut R) -> &mut T,
 {
    type Item = T;

    type XBound = RangeFull;

    type YBound = RangeFull;

    /// Both functions accept every coordinate and every state.
    closed spec fn wf(&self) -> bool {
        &&& forall|c: Coord, s: &R| #[trigger] self.reader.requires((c, s))
        &&& forall|c: Coord, s: &mut R| #[trigger] self.writer.requires((c, s))
    }

    open spec fn x_limits(&self) -> (Limit, Limit) {
        (Limit::Unbounded, Limit::Unbounded)
    }

    open spec fn y_limits(&self) -> (Limit, Limit) {
        (Limit::Unbounded, Limit::Unbounded)
    }

    fn x_bound(&self) -> (r: RangeFull) {
        let r = full_range();
        assert(limits(r) == (Limit::Unbounded, Limit::Unbounded));
        r
    }

    fn y_bound(&self) -> (r: RangeFull) {
        let r = full_range();
        assert(limits(r) == (Limit::Unbounded, Limit::Unbounded));
        r
    }
}

impl<R, T, Fr, Fw> Grid2Ref for KolmoRwGrid2<R, T, Fr, Fw> where
    Fr: Fn(Coord, &R) -> &T,
    Fw: Fn(Coord, &mut R) -> &mut T,
 {
    open spec fn refers(&self, c: Coord, v: T) -> bool {
        self.reader().ensures((c, &self.referent()), &v)
    }

    fn idx(&self, coord: Coord) -> (r: &T) {
        (self.reader)(coord, &self.referent)
    }
}

impl<R, T, Fr, Fw> Grid2Get for KolmoRwGrid2<R, T, Fr, Fw> where
    T: Clone,
    Fr: Fn(Coord, &R) -> &T,
    Fw: Fn(Coord, &mut R) -> &mut T,
 {
    open spec fn gives(&self, c: Coord, v: T) -> bool {
        exists|u: T| self.refers(c, u) && #[trigger] cloned(u, v)
    }

    fn get(&self, coord: Coord) -> (r: T) {
        let u = self.idx(coord);
        let r = u.clone();
        assert(cloned(*u, r));
        r
    }
}

impl<R, T, Fr, Fw> Grid2Mut for KolmoRwGrid2<R, T, Fr, Fw> where
    Fr: Fn(Coord, &R) -> &T,
    Fw: Fn(Coord, &mut R) -> &mut T,
 {
    /// The functions stay; the element lent is one the writer hands out for `c` from the
    /// referent as it was.
    open spec fn lends(&self, c: Coord, cur: T, fin: T, after: Self) -> bool {
        &&& after.reader() == self.reader()
        &&& after.writer() == self.writer()
        &&& exists|s: &mut R, m: &mut T|
            #[trigger] self.writer().ensures((c, s), m) && *s == self.referent() && *m == cur
    }

    fn midx(&mut self, coord: Coord) -> (r: &mut T) {
        (self.writer)(coord, &mut self.referent)
    }
}

impl<R, T, Fr, Fw> Grid2Set for KolmoRwGrid2<R, T, Fr, Fw> where
    Fr: Fn(Coord, &R) -> &T,
    Fw: Fn(Coord, &mut R) -> &mut T,
 {
    /// The functions stay; the element written is one the writer hands out for `c`.
    open spec fn sets(&self, c: Coord, v: T, after: Self) -> bool {
        &&& after.reader() == self.reader()
        &&& after.writer() == self.writer()
    }

    fn set(&mut self, coord: Coord, elem: T) {
        let m = (self.writer)(coord, &mut self.referent);
        *m = elem;
    }
}

} // verus!
