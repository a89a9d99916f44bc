//! Heap-allocated array implementation of Grid3.

use vstd::prelude::*;
use crate::range::{limits, limits_contain, AxisBound, Limit, Range0To};
use crate::grid3::{in_bounds_spec, Coord3, Grid3, Grid3Get, Grid3Len, Grid3Mut, Grid3Ref, Grid3Set};

verus! {

/// Position of `c` in an allocation of `y_len` rows of `x_len` per layer, `x` fastest and
/// `z` slowest.
pub open spec fn layer_major(x_len: int, y_len: int, c: Coord3) -> int {
    (c.z * y_len + c.y) * x_len + c.x
}

/// Whether `c` lies in the `x_len` by `y_len` by `z_len` box at the origin.
pub open spec fn in_box(x_len: int, y_len: int, z_len: int, c: Coord3) -> bool {
    0 <= c.x < x_len && 0 <= c.y < y_len && 0 <= c.z < z_len
}

/// Row-major pairs index distinct slots of a `w` by `h` table.
proof fn lemma_pair_index(w: int, h: int, a1: int, b1: int, a2: int, b2: int)
    requires
        0 <= a1 < w,
        0 <= b1 < h,
        0 <= a2 < w,
        0 <= b2 < h,
    ensures
        0 <= b1 * w + a1 < w * h,
        (a1 != a2 || b1 != b2) ==> b1 * w + a1 != b2 * w + a2,
{
    assert(0 <= b1 * w + a1 < w * h) by (nonlinear_arith)
        requires
            0 <= a1 < w,
            0 <= b1 < h,
    ;
    if b1 < b2 {
        assert(b1 * w + w <= b2 * w) by (nonlinear_arith)
            requires
                b1 < b2,
                w >= 0,
        ;
    } else if b2 < b1 {
        assert(b2 * w + w <= b1 * w) by (nonlinear_arith)
            requires
                b2 < b1,
                w >= 0,
        ;
    }
}

/// In a layer-major allocation, each cell of the box has a slot of its own.
pub proof fn lemma_layer_major(w: int, h: int, d: int, c: Coord3)
    requires
        in_box(w, h, d, c),
    ensures
        0 <= layer_major(w, h, c) < w * h * d,
        forall|e: Coord3|
            in_box(w, h, d, e) && e != c ==> #[trigger] layer_major(w, h, e) != layer_major(w, h, c)
                && 0 <= layer_major(w, h, e) < w * h * d,
{
    assert(w * (h * d) == w * h * d) by (nonlinear_arith);
    lemma_pair_index(h, d, c.y as int, c.z as int, c.y as int, c.z as int);
    lemma_pair_index(w, h * d, c.x as int, c.z * h + c.y, c.x as int, c.z * h + c.y);
    assert forall|e: Coord3| in_box(w, h, d, e) && e != c implies #[trigger] layer_major(w, h, e)
        != layer_major(w, h, c) && 0 <= layer_major(w, h, e) < w * h * d by {
        lemma_pair_index(h, d, e.y as int, e.z as int, c.y as int, c.z as int);
        lemma_pair_index(w, h * d, e.x as int, e.z * h + e.y, c.x as int, c.z * h + c.y);
    }
}

/// Heap-allocated array implementation of Grid3.
pub struct ArrayGrid3<T> {
    alloc: Vec<T>,
    x_len: i32,
    y_len: i32,
    z_len: i32,
}

impl<T> View for ArrayGrid3<T> {
    type V = Seq<T>;

    /// The elements in layer-major order: `x` fastest, `z` slowest.
    closed spec fn view(&self) -> Seq<T> {
        self.alloc@
    }
}

impl<T> ArrayGrid3<T> {
    #[verifier::type_invariant]
    spec fn inv(&self) -> bool {
        &&& self.x_len >= 0
        &&& self.y_len >= 0
        &&& self.z_len >= 0
        &&& self.x_len * self.y_len * self.z_len <= i32::MAX
        &&& self.alloc@.len() == self.x_len * self.y_len * self.z_len
    }

    /// Number of legal `x` values.
    pub closed spec fn width(&self) -> int {
        self.x_len as int
    }

    /// Number of legal `y` values.
    pub closed spec fn height(&self) -> int {
        self.y_len as int
    }

    /// Number of legal `z` values.
    pub closed spec fn depth(&self) -> int {
        self.z_len as int
    }

    /// The element at `c`.
    pub open spec fn at(&self, c: Coord3) -> T {
        self@[layer_major(self.width(), self.height(), c)]
    }

    proof fn lemma_bounds(&self)
        ensures
            forall|d: Coord3| #[trigger] in_bounds_spec(*self, d) <==> in_box(
                self.x_len as int,
                self.y_len as int,
                self.z_len as int,
                d,
            ),
    {
        assert forall|d: Coord3| #[trigger] in_bounds_spec(*self, d) <==> in_box(
            self.x_len as int,
            self.y_len as int,
            self.z_len as int,
            d,
        ) by {
            assert(limits_contain(self.x_limits().0, self.x_limits().1, d.x as int) == (0 <= d.x
                < self.x_len));
            assert(limits_contain(self.y_limits().0, self.y_limits().1, d.y as int) == (0 <= d.y
                < self.y_len));
            assert(limits_contain(self.z_limits().0, self.z_limits().1, d.z as int) == (0 <= d.z
                < self.z_len));
        }
    }

    /// `after` has this grid's shape, `v` at `c`, and this grid's elements elsewhere.
    pub open spec fn written(&self, c: Coord3, v: T, after: Self) -> bool {
        &&& after.width() == self.width()
        &&& after.height() == self.height()
        &&& after.depth() == self.depth()
        &&& after.at(c) == v
        &&& forall|d: Coord3| in_bounds_spec(*self, d) && d != c ==> #[trigger] after.at(d) == self.at(d)
    }

    /// Allocate a grid, calling `startval` once per cell, `x` fastest and `z` slowest.
    pub fn new<F: Fn(Coord3) -> T>(x_len: i32, y_len: i32, z_len: i32, startval: F) -> (r: Self)
        requires
            x_len >= 0,
            y_len >= 0,
            z_len >= 0,
            x_len * y_len * z_len <= i32::MAX,
            forall|c: Coord3| in_box(x_len as int, y_len as int, z_len as int, c) ==> #[trigger] startval.requires((c,)),
        ensures
            r.width() == x_len,
            r.height() == y_len,
            r.depth() == z_len,
            forall|c: Coord3|
                in_box(x_len as int, y_len as int, z_len as int, c) ==> startval.ensures(
                    (c,),
                    #[trigger] r.at(c),
                ),
    {
        let ghost w = x_len as int;
        let ghost h = y_len as int;
        let ghost d = z_len as int;
        let mut v: Vec<T> = Vec::new();
        let mut z: i32 = 0;
        while z < z_len
            invariant
                0 <= z <= z_len,
                x_len >= 0,
                y_len >= 0,
                x_len * y_len * z_len <= i32::MAX,
                w == x_len,
                h == y_len,
                d == z_len,
                v@.len() == z * y_len * x_len,
                forall|c: Coord3| in_box(w, h, d, c) ==> #[trigger] startval.requires((c,)),
                forall|c: Coord3|
                    in_box(w, h, d, c) && layer_major(w, h, c) < v@.len() ==> startval.ensures(
                        (c,),
                        #[trigger] v@[layer_major(w, h, c)],
                    ),
            decreases z_len - z,
        {
            let mut y: i32 = 0;
            while y < y_len
                invariant
                    0 <= z < z_len,
                    0 <= y <= y_len,
                    x_len >= 0,
                    y_len >= 0,
                    x_len * y_len * z_len <= i32::MAX,
                    w == x_len,
                    h == y_len,
                    d == z_len,
                w == x_len,
                h == y_len,
                d == z_len,
                    v@.len() == (z * y_len + y) * x_len,
                    forall|c: Coord3| in_box(w, h, d, c) ==> #[trigger] startval.requires((c,)),
                    forall|c: Coord3|
                        in_box(w, h, d, c) && layer_major(w, h, c) < v@.len() ==> startval.ensures(
                            (c,),
                            #[trigger] v@[layer_major(w, h, c)],
                        ),
                decreases y_len - y,
            {
                let mut x: i32 = 0;
                while x < x_len
                    invariant
                        0 <= z < z_len,
                        0 <= y < y_len,
                        0 <= x <= x_len,
                        x_len >= 0,
                        y_len >= 0,
                        x_len * y_len * z_len <= i32::MAX,
                        w == x_len,
                        h == y_len,
                        d == z_len,
                    w == x_len,
                    h == y_len,
                    d == z_len,
                w == x_len,
                h == y_len,
                d == z_len,
                        v@.len() == (z * y_len + y) * x_len + x,
                        forall|c: Coord3| in_box(w, h, d, c) ==> #[trigger] startval.requires((c,)),
                        forall|c: Coord3|
                            in_box(w, h, d, c) && layer_major(w, h, c) < v@.len()
                                ==> startval.ensures((c,), #[trigger] v@[layer_major(w, h, c)]),
                    decreases x_len - x,
                {
                    let c = Coord3 { x, y, z };
                    assert(in_box(w, h, d, c));
                    let item = startval(c);
                    proof {
                        lemma_layer_major(w, h, d, c);
                        assert(layer_major(w, h, c) == v@.len());
                    }
                    let ghost old_v = v@;
                    v.push(item);
                    proof {
                        assert forall|e: Coord3|
                            in_box(w, h, d, e) && layer_major(w, h, e) < v@.len() implies startval.ensures(
                            (e,),
                            #[trigger] v@[layer_major(w, h, e)],
                        ) by {
                            if e != c {
                                assert(layer_major(w, h, e) != layer_major(w, h, c));
                                assert(v@[layer_major(w, h, e)] == old_v[layer_major(w, h, e)]);
                            }
                        }
                    }
                    x = x + 1;
                }
                proof {
                    assert((z * y_len + y) * x_len + x_len == (z * y_len + (y + 1)) * x_len)
                        by (nonlinear_arith);
                }
                y = y + 1;
            }
            proof {
                assert((z * y_len + y_len) * x_len == (z + 1) * y_len * x_len) by (nonlinear_arith);
            }
            z = z + 1;
        }
        proof {
            assert(z_len * y_len * x_len == x_len * y_len * z_len) by (nonlinear_arith);
            assert forall|c: Coord3| in_box(w, h, d, c) implies layer_major(w, h, c) < v@.len() by {
                lemma_layer_major(w, h, d, c);
            }
        }
        ArrayGrid3 { alloc: v, x_len, y_len, z_len }
    }

    /// Allocate a grid with every cell a clone of `startval`.
    pub fn broadcast(x_len: i32, y_len: i32, z_len: i32, startval: T) -> (r: Self)
        where
            T: Clone,
        requires
            x_len >= 0,
            y_len >= 0,
            z_len >= 0,
            x_len * y_len * z_len <= i32::MAX,
        ensures
            r.width() == x_len,
            r.height() == y_len,
            r.depth() == z_len,
            forall|c: Coord3|
                in_box(x_len as int, y_len as int, z_len as int, c) ==> cloned(
                    startval,
                    #[trigger] r.at(c),
                ),
    {
        let s = &startval;
        let f = |c: Coord3| -> (e: T)
            ensures
                cloned(*s, e),
            { s.clone() };
        Self::new(x_len, y_len, z_len, f)
    }

    /// Position of `(x, y, z)` in the allocation, `None` when it lies outside the grid.
    pub fn inner_index(&self, x: i32, y: i32, z: i32) -> (r: Option<i32>)
        ensures
            r is Some <==> in_bounds_spec(*self, Coord3 { x, y, z }),
            r matches Some(i) ==> i == layer_major(self.width(), self.height(), Coord3 { x, y, z }),
    {
        proof {
            use_type_invariant(self);
            self.lemma_bounds();
        }
        if x < 0 || x >= self.x_len || y < 0 || y >= self.y_len || z < 0 || z >= self.z_len {
            None
        } else {
            proof {
                lemma_layer_major(
                    self.x_len as int,
                    self.y_len as int,
                    self.z_len as int,
                    Coord3 { x, y, z },
                );
                let (xl, yl, zl) = (self.x_len as int, self.y_len as int, self.z_len as int);
                assert(0 <= z * yl + y < yl * zl) by (nonlinear_arith)
                    requires
                        0 <= y < yl,
                        0 <= z < zl,
                ;
                assert(yl * zl <= xl * yl * zl) by (nonlinear_arith)
                    requires
                        xl >= 1,
                        yl >= 0,
                        zl >= 0,
                ;
                assert(0 <= (z * yl + y) * xl);
            }
            Some((z * self.y_len + y) * self.x_len + x)
        }
    }
}

impl<T> Grid3 for ArrayGrid3<T> {
    type Item = T;

    type XBound = Range0To;

    type YBound = Range0To;


    type ZBound = Range0To;

    open spec fn wf(&self) -> bool {
        true
    }

    open spec fn x_limits(&self) -> (Limit, Limit) {
        (Limit::Included(0), Limit::Excluded(self.width() as i32))
    }

    open spec fn y_limits(&self) -> (Limit, Limit) {
        (Limit::Included(0), Limit::Excluded(self.height() as i32))
    }

    open spec fn z_limits(&self) -> (Limit, Limit) {
        (Limit::Included(0), Limit::Excluded(self.depth() as i32))
    }

    fn x_bound(&self) -> (r: Range0To) {
        let r = Range0To { end: self.x_len };
        assert(limits(r) == (Limit::Included(0), Limit::Excluded(self.x_len)));
        r
    }

    fn y_bound(&self) -> (r: Range0To) {
        let r = Range0To { end: self.y_len };
        assert(limits(r) == (Limit::Included(0), Limit::Excluded(self.y_len)));
        r
    }

    fn z_bound(&self) -> (r: Range0To) {
        let r = Range0To { end: self.z_len };
        assert(limits(r) == (Limit::Included(0), Limit::Excluded(self.z_len)));
        r
    }
}

impl<T> Grid3Len for ArrayGrid3<T> {
}

impl<T> Grid3Ref for ArrayGrid3<T> {
    open spec fn refers(&self, c: Coord3, v: T) -> bool {
        v == self.at(c)
    }

    fn idx(&self, coord: Coord3) -> (r: &T) {
        proof {
            use_type_invariant(self);
            self.lemma_bounds();
            lemma_layer_major(self.x_len as int, self.y_len as int, self.z_len as int, coord);
        }
        let i = self.inner_index(coord.x, coord.y, coord.z).unwrap();
        &self.alloc[i as usize]
    }
}

impl<T> Grid3Mut for ArrayGrid3<T> {
    open spec fn lends(&self, c: Coord3, cur: T, fin: T, after: Self) -> bool {
        &&& cur == self.at(c)
        &&& self.written(c, fin, after)
    }

    fn midx(&mut self, coord: Coord3) -> (r: &mut T) {
        proof {
            use_type_invariant(&*self);
            self.lemma_bounds();
            lemma_layer_major(self.x_len as int, self.y_len as int, self.z_len as int, coord);
        }
        let i = self.inner_index(coord.x, coord.y, coord.z).unwrap();
        &mut self.alloc[i as usize]
    }
}

impl<T: Clone> Grid3Get for ArrayGrid3<T> {
    open spec fn gives(&self, c: Coord3, v: T) -> bool {
        cloned(self.at(c), v)
    }

    fn get(&self, coord: Coord3) -> (r: T) {
        self.idx(coord).clone()
    }
}

impl<T> Grid3Set for ArrayGrid3<T> {
    open spec fn sets(&self, c: Coord3, v: T, after: Self) -> bool {
        self.written(c, v, after)
    }

    fn set(&mut self, coord: Coord3, elem: T) {
        *self.midx(coord) = elem;
    }
}

/// Writing `v` at an in-bounds `c` of an array grid and then reading `c` gives back `v`
/// (or a clone of it), whatever was written before; every other cell reads as it did.
pub proof fn lemma_set_then_get<T: Clone>(g: ArrayGrid3<T>, c: Coord3, v: T, after: ArrayGrid3<T>)
    requires
        in_bounds_spec(g, c),
        g.sets(c, v, after),
    ensures
        after.refers(c, v),
        forall|r: T| after.gives(c, r) <==> cloned(v, r),
        forall|d: Coord3| in_bounds_spec(after, d) <==> in_bounds_spec(g, d),
        forall|d: Coord3, r: T|
            in_bounds_spec(g, d) && d != c ==> (after.gives(d, r) <==> g.gives(d, r)),
{
    assert forall|d: Coord3| in_bounds_spec(after, d) <==> in_bounds_spec(g, d) by {
        assert(after.x_limits() == g.x_limits());
        assert(after.y_limits() == g.y_limits());
        assert(after.z_limits() == g.z_limits());
    }
}

} // verus!
