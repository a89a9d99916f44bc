//! Kolmogorov by-reference read/write encoding of Grid3.

use vstd::prelude::*;
use std::marker::PhantomData;
use std::ops::RangeFull;
use crate::range::{full_range, limits, Limit};
use crate::grid3::{Coord3, Grid3, Grid3Get, Grid3Mut, Grid3Ref, Grid3Set};

verus! {

/// Kolmogorov by-reference read/write encoding of Grid3.
///
/// This grid owns a single *referent* value, and reads and writes
/// its elements through a *reader* and a *writer* function which
/// borrow them from the referent. The two must address the same
/// element for each coordinate; that is the caller's to uphold.
/// It is unbounded.
#[verifier::reject_recursive_types(R)]
#[verifier::reject_recursive_types(T)]
#[verifier::reject_recursive_types(Fr)]
#[verifier::reject_recursive_types(Fw)]
pub struct KolmoRwGrid3<R, T, Fr, Fw> where
    Fr: Fn(Coord3, &R) -> &T,
    Fw: Fn(Coord3, &mut R) -> &mut T,
 {
    referent: R,
    reader: Fr,
    writer: Fw,
    p: PhantomData<T>,
}

impl<R, T, Fr, Fw> KolmoRwGrid3<R, T, Fr, Fw> where
    Fr: Fn(Coord3, &R) -> &T,
    Fw: Fn(Coord3, &mut R) -> &mut T,
 {
    /// The owned state that both functions borrow from.
    pub closed spec fn referent(&self) -> R {
        self.referent
    }

    /// The function that reads elements.
    pub closed spec fn reader(&self) -> Fr {
        self.reader
    }

    /// The function that writes elements.
    pub closed spec fn writer(&self) -> Fw {
        self.writer
    }

    pub fn new(referent: R, reader: Fr, writer: Fw) -> (r: Self)
        requires
            forall|c: Coord3, s: &R| #[trigger] reader.requires((c, s)),
            forall|c: Coord3, s: &mut R| #[trigger] writer.requires((c, s)),
        ensures
            r.wf(),
            r.referent() == referent,
            r.reader() == reader,
            r.writer() == writer,
    {
        KolmoRwGrid3 { referent, reader, writer, p: PhantomData }
    }
}

impl<R, T, Fr, Fw> Grid3 for KolmoRwGrid3<R, T, Fr, Fw> where
    Fr: Fn(Coord3, &R) -> &T,
    Fw: Fn(Coord3, &mut R) -> &mut T,
 {
    type Item = T;

    type XBound = RangeFull;

    type YBound = RangeFull;

    type ZBound = RangeFull;

    /// Both functions accept every coordinate and every state.
    closed spec fn wf(&self) -> bool {
        &&& forall|c: Coord3, s: &R| #[trigger] self.reader.requires((c, s))
        &&& forall|c: Coord3, s: &mut R| #[trigger] self.writer.requires((c, s))
    }

    open spec fn x_limits(&self) -> (Limit, Limit) {
        (Limit::Unbounded, Limit::Unbounded)
    }

    open spec fn y_limits(&self) -> (Limit, Limit) {
        (Limit::Unbounded, Limit::Unbounded)
    }

    open spec fn z_limits(&self) -> (Limit, Limit) {
        (Limit::Unbounded, Limit::Unbounded)
    }

    fn x_bound(&self) -> (r: RangeFull) {
        let r = full_range();
        assert(limits(r) == (Limit::Unbounded, Limit::Unbounded));
        r
    }

    fn y_bound(&self) -> (r: RangeFull) {
        let r = full_range();
        assert(limits(r) == (Limit::Unbounded, Limit::Unbounded));
        r
    }

    fn z_bound(&self) -> (r: RangeFull) {
        let r = full_range();
        assert(limits(r) == (Limit::Unbounded, Limit::Unbounded));
        r
    }
}

impl<R, T, Fr, Fw> Grid3Ref for KolmoRwGrid3<R, T, Fr, Fw> where
    Fr: Fn(Coord3, &R) -> &T,
    Fw: Fn(Coord3, &mut R) -> &mut T,
 {
    open spec fn refers(&self, c: Coord3, v: T) -> bool {
        self.reader().ensures((c, &self.referent()), &v)
    }

    fn idx(&self, coord: Coord3) -> (r: &T) {
        (self.reader)(coord, &self.referent)
    }
}

impl<R, T, Fr, Fw> Grid3Get for KolmoRwGrid3<R, T, Fr, Fw> where
    T: Clone,
    Fr: Fn(Coord3, &R) -> &T,
    Fw: Fn(Coord3, &mut R) -> &mut T,
 {
    open spec fn gives(&self, c: Coord3, v: T) -> bool {
        exists|u: T| self.refers(c, u) && #[trigger] cloned(u, v)
    }

    fn get(&self, coord: Coord3) -> (r: T) {
        let u = self.idx(coord);
        let r = u.clone();
        assert(cloned(*u, r));
        r
    }
}

impl<R, T, Fr, Fw> Grid3Mut for KolmoRwGrid3<R, T, Fr, Fw> where
    Fr: Fn(Coord3, &R) -> &T,
    Fw: Fn(Coord3, &mut R) -> &mut T,
 {
    /// The functions stay; the element lent is one the writer hands out for `c` from the
    /// referent as it was.
    open spec fn lends(&self, c: Coord3, cur: T, fin: T, after: Self) -> bool {
        &&& after.reader() == self.reader()
        &&& after.writer() == self.writer()
        &&& exists|s: &mut R, m: &mut T|
            #[trigger] self.writer().ensures((c, s), m) && *s == self.referent() && *m == cur
    }

    fn midx(&mut self, coord: Coord3) -> (r: &mut T) {
        (self.writer)(coord, &mut self.referent)
    }
}

impl<R, T, Fr, Fw> Grid3Set for KolmoRwGrid3<R, T, Fr, Fw> where
    Fr: Fn(Coord3, &R) -> &T,
    Fw: Fn(Coord3, &mut R) -> &mut T,
 {
    /// The functions stay; the element written is one the writer hands out for `c`.
    open spec fn sets(&self, c: Coord3, v: T, after: Self) -> bool {
        &&& after.reader() == self.reader()
        &&& after.writer() == self.writer()
    }

    fn set(&mut self, coord: Coord3, elem: T) {
        let m = (self.writer)(coord, &mut self.referent);
        *m = elem;
    }
}

} // verus!
