//! Heap-allocated array implementation of Grid2.

use vstd::prelude::*;
use crate::range::{limits, limits_contain, AxisBound, Limit, Range0To};
use crate::grid2::{in_bounds_spec, Coord, Grid2, Grid2Get, Grid2Len, Grid2Mut, Grid2Ref, Grid2Set};

verus! {

/// Position of `c` in a row-major allocation whose rows hold `x_len` elements.
pub open spec fn row_major(x_len: int, c: Coord) -> int {
    c.y * x_len + c.x
}

/// In a `w` by `h` row-major allocation, cell `c` has a slot of its own.
pub proof fn lemma_row_major(w: int, h: int, c: Coord)
    requires
        0 <= c.x < w,
        0 <= c.y < h,
    ensures
        0 <= row_major(w, c) < w * h,
        forall|d: Coord|
            0 <= d.x < w && 0 <= d.y < h && d != c ==> #[trigger] row_major(w, d) != row_major(
                w,
                c,
            ) && 0 <= row_major(w, d) < w * h,
{
    assert(0 <= c.y * w + c.x < w * h) by (nonlinear_arith)
        requires
            0 <= c.x < w,
            0 <= c.y < h,
    ;
    assert forall|d: Coord| 0 <= d.x < w && 0 <= d.y < h && d != c implies #[trigger] row_major(w, d)
        != row_major(w, c) && 0 <= row_major(w, d) < w * h by {
        assert(0 <= d.y * w + d.x < w * h) by (nonlinear_arith)
            requires
                0 <= d.x < w,
                0 <= d.y < h,
        ;
        if d.y < c.y {
            assert(d.y * w + w <= c.y * w) by (nonlinear_arith)
                requires
                    d.y < c.y,
                    w >= 0,
            ;
        } else if c.y < d.y {
            assert(c.y * w + w <= d.y * w) by (nonlinear_arith)
                requires
                    c.y < d.y,
                    w >= 0,
            ;
        }
    }
}

/// Heap-allocated array implementation of Grid2.
pub struct ArrayGrid2<T> {
    alloc: Vec<T>,
    x_len: i32,
    y_len: i32,
}

impl<T> View for ArrayGrid2<T> {
    type V = Seq<T>;

    /// The elements in row-major order: `x` fastest, `y` slowest.
    closed spec fn view(&self) -> Seq<T> {
        self.alloc@
    }
}

impl<T> ArrayGrid2<T> {
    #[verifier::type_invariant]
    spec fn inv(&self) -> bool {
        &&& self.x_len >= 0
        &&& self.y_len >= 0
        &&& self.x_len * self.y_len <= i32::MAX
        &&& self.alloc@.len() == self.x_len * self.y_len
    }

    /// The element at `c`.
    pub open spec fn at(&self, c: Coord) -> T {
        self@[row_major(self.width(), c)]
    }

    /// Number of legal `x` values.
    pub closed spec fn width(&self) -> int {
        self.x_len as int
    }

    /// Number of legal `y` values.
    pub closed spec fn height(&self) -> int {
        self.y_len as int
    }

    proof fn lemma_bounds(&self)
        ensures
            forall|d: Coord|
                #[trigger] in_bounds_spec(*self, d) <==> (0 <= d.x < self.x_len && 0 <= d.y
                    < self.y_len),
    {
        assert forall|d: Coord| #[trigger] in_bounds_spec(*self, d) <==> (0 <= d.x < self.x_len && 0
            <= d.y < self.y_len) by {
            assert(limits_contain(self.x_limits().0, self.x_limits().1, d.x as int) == (0 <= d.x
                < self.x_len));
            assert(limits_contain(self.y_limits().0, self.y_limits().1, d.y as int) == (0 <= d.y
                < self.y_len));
        }
    }

    /// `after` has this grid's shape, `v` at `c`, and this grid's elements elsewhere.
    pub open spec fn written(&self, c: Coord, v: T, after: Self) -> bool {
        &&& after.width() == self.width()
        &&& after.height() == self.height()
        &&& after.at(c) == v
        &&& forall|d: Coord| in_bounds_spec(*self, d) && d != c ==> #[trigger] after.at(d) == self.at(d)
    }

    /// Allocate a grid, calling `startval` once per cell, `x` fastest.
    pub fn new<F: Fn(Coord) -> T>(x_len: i32, y_len: i32, startval: F) -> (r: Self)
        requires
            x_len >= 0,
            y_len >= 0,
            x_len * y_len <= i32::MAX,
            forall|c: Coord| 0 <= c.x < x_len && 0 <= c.y < y_len ==> startval.requires((c,)),
        ensures
            r.width() == x_len,
            r.height() == y_len,
            forall|c: Coord|
                0 <= c.x < x_len && 0 <= c.y < y_len ==> startval.ensures((c,), #[trigger] r.at(c)),
    {
        let len: i32 = x_len * y_len;
        let mut v: Vec<T> = Vec::with_capacity(len as usize);
        let mut y: i32 = 0;
        while y < y_len
            invariant
                0 <= y <= y_len,
                x_len >= 0,
                x_len * y_len <= i32::MAX,
                v@.len() == y * x_len,
                forall|c: Coord| 0 <= c.x < x_len && 0 <= c.y < y_len ==> startval.requires((c,)),
                forall|c: Coord|
                    0 <= c.x < x_len && 0 <= c.y < y ==> startval.ensures(
                        (c,),
                        #[trigger] v@[row_major(x_len as int, c)],
                    ),
            decreases y_len - y,
        {
            let mut x: i32 = 0;
            while x < x_len
                invariant
                    0 <= y < y_len,
                    0 <= x <= x_len,
                    x_len >= 0,
                    x_len * y_len <= i32::MAX,
                    v@.len() == y * x_len + x,
                    forall|c: Coord| 0 <= c.x < x_len && 0 <= c.y < y_len ==> startval.requires((c,)),
                    forall|c: Coord|
                        0 <= c.x < x_len && 0 <= c.y < y ==> startval.ensures(
                            (c,),
                            #[trigger] v@[row_major(x_len as int, c)],
                        ),
                    forall|c: Coord|
                        0 <= c.x < x && c.y == y ==> startval.ensures(
                            (c,),
                            #[trigger] v@[row_major(x_len as int, c)],
                        ),
                decreases x_len - x,
            {
                let c = Coord { x, y };
                let item = startval(c);
                proof {
                    assert(row_major(x_len as int, c) == v@.len());
                    assert forall|d: Coord| 0 <= d.x < x_len && 0 <= d.y < y implies row_major(
                        x_len as int,
                        d,
                    ) < y * x_len by {
                        assert(d.y * x_len + d.x < y * x_len) by (nonlinear_arith)
                            requires
                                0 <= d.x < x_len,
                                0 <= d.y < y,
                        ;
                    }
                }
                v.push(item);
                x = x + 1;
            }
            proof {
                assert((y + 1) * x_len == y * x_len + x_len) by (nonlinear_arith);
            }
            y = y + 1;
        }
        proof {
            assert(y_len * x_len == x_len * y_len) by (nonlinear_arith);
        }
        ArrayGrid2 { alloc: v, x_len, y_len }
    }

    /// Allocate a grid with every cell a clone of `startval`.
    pub fn broadcast(x_len: i32, y_len: i32, startval: T) -> (r: Self)
        where
            T: Clone,
        requires
            x_len >= 0,
            y_len >= 0,
            x_len * y_len <= i32::MAX,
        ensures
            r.width() == x_len,
            r.height() == y_len,
            forall|c: Coord|
                0 <= c.x < x_len && 0 <= c.y < y_len ==> cloned(startval, #[trigger] r.at(c)),
    {
        let s = &startval;
        let f = |c: Coord| -> (e: T)
            ensures
                cloned(*s, e),
            { s.clone() };
        Self::new(x_len, y_len, f)
    }

    /// Position of `(x, y)` in the allocation, `None` when it lies outside the grid.
    pub fn inner_index(&self, x: i32, y: i32) -> (r: Option<i32>)
        ensures
            r is Some <==> in_bounds_spec(*self, Coord { x, y }),
            r matches Some(i) ==> i == row_major(self.width(), Coord { x, y }),
    {
        proof {
            use_type_invariant(self);
        }
        proof {
            self.lemma_bounds();
        }
        if x < 0 || x >= self.x_len || y < 0 || y >= self.y_len {
            None
        } else {
            proof {
                lemma_row_major(self.x_len as int, self.y_len as int, Coord { x, y });
            }
            Some(y * self.x_len + x)
        }
    }
}

impl<T> Grid2 for ArrayGrid2<T> {
    type Item = T;

    type XBound = Range0To;

    type YBound = Range0To;

    open spec fn wf(&self) -> bool {
        true
    }

    open spec fn x_limits(&self) -> (Limit, Limit) {
        (Limit::Included(0), Limit::Excluded(self.width() as i32))
    }

    open spec fn y_limits(&self) -> (Limit, Limit) {
        (Limit::Included(0), Limit::Excluded(self.height() as i32))
    }

    fn x_bound(&self) -> (r: Range0To) {
        let r = Range0To { end: self.x_len };
        assert(limits(r) == (Limit::Included(0), Limit::Excluded(self.x_len)));
        r
    }

    fn y_bound(&self) -> (r: Range0To) {
        let r = Range0To { end: self.y_len };
        assert(limits(r) == (Limit::Included(0), Limit::Excluded(self.y_len)));
        r
    }
}

impl<T> Grid2Len for ArrayGrid2<T> {
}

impl<T> Grid2Ref for ArrayGrid2<T> {
    open spec fn refers(&self, c: Coord, v: T) -> bool {
        v == self.at(c)
    }

    fn idx(&self, coord: Coord) -> (r: &T) {
        proof {
            use_type_invariant(self);
            lemma_row_major(self.x_len as int, self.y_len as int, coord);
        }
        let i = self.inner_index(coord.x, coord.y).unwrap();
        &self.alloc[i as usize]
    }
}

impl<T> Grid2Mut for ArrayGrid2<T> {
    open spec fn lends(&self, c: Coord, cur: T, fin: T, after: Self) -> bool {
        &&& cur == self.at(c)
        &&& self.written(c, fin, after)
    }

    fn midx(&mut self, coord: Coord) -> (r: &mut T) {
        proof {
            use_type_invariant(&*self);
            self.lemma_bounds();
            lemma_row_major(self.x_len as int, self.y_len as int, coord);
        }
        let i = self.inner_index(coord.x, coord.y).unwrap();
        &mut self.alloc[i as usize]
    }
}

impl<T: Clone> Grid2Get for ArrayGrid2<T> {
    open spec fn gives(&self, c: Coord, v: T) -> bool {
        cloned(self.at(c), v)
    }

    fn get(&self, coord: Coord) -> (r: T) {
        self.idx(coord).clone()
    }
}

impl<T> Grid2Set for ArrayGrid2<T> {
    open spec fn sets(&self, c: Coord, v: T, after: Self) -> bool {
        self.written(c, v, after)
    }

    fn set(&mut self, coord: Coord, elem: T) {
        *self.midx(coord) = elem;
    }
}

/// Writing `v` at an in-bounds `c` of an array grid and then reading `c` gives back `v`
/// (or a clone of it), whatever was written before; every other cell reads as it did.
pub proof fn lemma_set_then_get<T: Clone>(g: ArrayGrid2<T>, c: Coord, v: T, after: ArrayGrid2<T>)
    requires
        in_bounds_spec(g, c),
        g.sets(c, v, after),
    ensures
        after.refers(c, v),
        forall|r: T| after.gives(c, r) <==> cloned(v, r),
        forall|d: Coord| in_bounds_spec(after, d) <==> in_bounds_spec(g, d),
        forall|d: Coord, r: T|
            in_bounds_spec(g, d) && d != c ==> (after.gives(d, r) <==> g.gives(d, r)),
{
    assert forall|d: Coord| in_bounds_spec(after, d) <==> in_bounds_spec(g, d) by {
        assert(after.x_limits() == g.x_limits());
        assert(after.y_limits() == g.y_limits());
    }
}

} // verus!
