//! 3x3 allocation-free array implementation of Grid2.

use vstd::prelude::*;
use vstd::std_specs::convert::FromSpec;
use crate::range::{limits, limits_contain, AxisBound, Limit, Range0To};
use crate::grid2::{in_bounds_spec, Coord, Grid2, Grid2Get, Grid2Len, Grid2Mut, Grid2Ref, Grid2Set};

verus! {

/// 3x3 allocation-free array implementation of Grid2, stored column by column.
pub struct Inline3x3Grid<T> {
    array: [[T; 3]; 3],
}

impl<T> View for Inline3x3Grid<T> {
    type V = Seq<Seq<T>>;

    /// The columns: `self@[x][y]` is the element at `(x, y)`.
    closed spec fn view(&self) -> Seq<Seq<T>> {
        seq![self.array[0]@, self.array[1]@, self.array[2]@]
    }
}

/// Whether `c` lies in the 3 by 3 square at the origin.
pub open spec fn in_square(c: Coord) -> bool {
    0 <= c.x < 3 && 0 <= c.y < 3
}

impl<T> Inline3x3Grid<T> {
    /// The element at `c`.
    pub open spec fn at(&self, c: Coord) -> T {
        self@[c.x as int][c.y as int]
    }

    proof fn lemma_bounds(&self)
        ensures
            forall|d: Coord| #[trigger] in_bounds_spec(*self, d) <==> in_square(d),
    {
        assert forall|d: Coord| #[trigger] in_bounds_spec(*self, d) <==> in_square(d) by {
            assert(limits_contain(self.x_limits().0, self.x_limits().1, d.x as int) == (0 <= d.x
                < 3));
            assert(limits_contain(self.y_limits().0, self.y_limits().1, d.y as int) == (0 <= d.y
                < 3));
        }
    }

    /// `after` holds `v` at `c` and this grid's elements elsewhere.
    pub open spec fn written(&self, c: Coord, v: T, after: Self) -> bool {
        &&& after.at(c) == v
        &&& forall|d: Coord| in_square(d) && d != c ==> #[trigger] after.at(d) == self.at(d)
    }

    /// Fill the grid by calling `startval` once per cell, `x` fastest.
    pub fn new<F: Fn(Coord) -> T>(startval: F) -> (r: Self)
        requires
            forall|c: Coord| in_square(c) ==> #[trigger] startval.requires((c,)),
        ensures
            forall|c: Coord| in_square(c) ==> startval.ensures((c,), #[trigger] r.at(c)),
    {
        let e00 = startval(Coord { x: 0, y: 0 });
        let e10 = startval(Coord { x: 1, y: 0 });
        let e20 = startval(Coord { x: 2, y: 0 });
        let e01 = startval(Coord { x: 0, y: 1 });
        let e11 = startval(Coord { x: 1, y: 1 });
        let e21 = startval(Coord { x: 2, y: 1 });
        let e02 = startval(Coord { x: 0, y: 2 });
        let e12 = startval(Coord { x: 1, y: 2 });
        let e22 = startval(Coord { x: 2, y: 2 });
        let r = Inline3x3Grid { array: [[e00, e01, e02], [e10, e11, e12], [e20, e21, e22]] };
        assert forall|c: Coord| in_square(c) implies startval.ensures((c,), #[trigger] r.at(c)) by {
            assert(c.x == 0 || c.x == 1 || c.x == 2);
            assert(c.y == 0 || c.y == 1 || c.y == 2);
        }
        r
    }

    /// Every cell a clone of `startval`.
    pub fn broadcast(startval: T) -> (r: Self)
        where
            T: Clone,
        ensures
            forall|c: Coord| in_square(c) ==> cloned(startval, #[trigger] r.at(c)),
    {
        let s = &startval;
        let f = |c: Coord| -> (e: T)
            ensures
                cloned(*s, e),
            { s.clone() };
        Self::new(f)
    }
}

impl<T> From<[[T; 3]; 3]> for Inline3x3Grid<T> {
    fn from(array: [[T; 3]; 3]) -> (r: Self) {
        Inline3x3Grid { array }
    }
}

impl<T> vstd::std_specs::convert::FromSpecImpl<[[T; 3]; 3]> for Inline3x3Grid<T> {
    open spec fn obeys_from_spec() -> bool {
        true
    }

    closed spec fn from_spec(array: [[T; 3]; 3]) -> Self {
        Inline3x3Grid { array }
    }
}

impl<T> Inline3x3Grid<T> {
    /// A grid converted from an array, indexed `[x][y]`, holds its elements.
    pub proof fn lemma_from_array(array: [[T; 3]; 3])
        ensures
            forall|c: Coord|
                in_square(c) ==> #[trigger] <Self as FromSpec<[[T; 3]; 3]>>::from_spec(array).at(c) == array[c.x as int][c.y as int],
    {
        let g = <Self as FromSpec<[[T; 3]; 3]>>::from_spec(array);
        assert forall|c: Coord| in_square(c) implies #[trigger] g.at(c) == array[c.x as int][c.y as int] by {
            assert(c.x == 0 || c.x == 1 || c.x == 2);
        }
    }
}

impl<T> Grid2 for Inline3x3Grid<T> {
    type Item = T;

    type XBound = Range0To;

    type YBound = Range0To;

    open spec fn wf(&self) -> bool {
        true
    }

    open spec fn x_limits(&self) -> (Limit, Limit) {
        (Limit::Included(0), Limit::Excluded(3))
    }

    open spec fn y_limits(&self) -> (Limit, Limit) {
        (Limit::Included(0), Limit::Excluded(3))
    }

    fn x_bound(&self) -> (r: Range0To) {
        let r = Range0To { end: 3 };
        assert(limits(r) == (Limit::Included(0), Limit::Excluded(3)));
        r
    }

    fn y_bound(&self) -> (r: Range0To) {
        let r = Range0To { end: 3 };
        assert(limits(r) == (Limit::Included(0), Limit::Excluded(3)));
        r
    }
}

impl<T> Grid2Len for Inline3x3Grid<T> {
}

impl<T> Grid2Ref for Inline3x3Grid<T> {
    open spec fn refers(&self, c: Coord, v: T) -> bool {
        v == self.at(c)
    }

    fn idx(&self, coord: Coord) -> (r: &T) {
        proof {
            self.lemma_bounds();
        }
        &self.array[coord.x as usize][coord.y as usize]
    }
}

impl<T> Grid2Mut for Inline3x3Grid<T> {
    open spec fn lends(&self, c: Coord, cur: T, fin: T, after: Self) -> bool {
        &&& cur == self.at(c)
        &&& self.written(c, fin, after)
    }

    fn midx(&mut self, coord: Coord) -> (r: &mut T) {
        proof {
            self.lemma_bounds();
        }
        &mut self.array[coord.x as usize][coord.y as usize]
    }
}

impl<T: Clone> Grid2Get for Inline3x3Grid<T> {
    open spec fn gives(&self, c: Coord, v: T) -> bool {
        cloned(self.at(c), v)
    }

    fn get(&self, coord: Coord) -> (r: T) {
        self.idx(coord).clone()
    }
}

impl<T> Grid2Set for Inline3x3Grid<T> {
    open spec fn sets(&self, c: Coord, v: T, after: Self) -> bool {
        self.written(c, v, after)
    }

    fn set(&mut self, coord: Coord, elem: T) {
        *self.midx(coord) = elem;
    }
}

} // verus!
