//! 3x3x3 allocation-free array implementation of Grid3.

use vstd::prelude::*;
use vstd::std_specs::convert::FromSpec;
use crate::range::{limits, limits_contain, AxisBound, Limit, Range0To};
use crate::grid3::{in_bounds_spec, Coord3, Grid3, Grid3Get, Grid3Len, Grid3Mut, Grid3Ref, Grid3Set};

verus! {

/// 3x3x3 allocation-free array implementation of Grid3, indexed `[x][y][z]`.
pub struct Inline3x3x3Grid<T> {
    array: [[[T; 3]; 3]; 3],
}

/// Whether `c` lies in the 3 by 3 by 3 cube at the origin.
pub open spec fn in_cube(c: Coord3) -> bool {
    0 <= c.x < 3 && 0 <= c.y < 3 && 0 <= c.z < 3
}

impl<T> Inline3x3x3Grid<T> {
    /// The element at `c`.
    pub closed spec fn at(&self, c: Coord3) -> T {
        self.array[c.x as int][c.y as int][c.z as int]
    }

    proof fn lemma_bounds(&self)
        ensures
            forall|d: Coord3| #[trigger] in_bounds_spec(*self, d) <==> in_cube(d),
    {
        assert forall|d: Coord3| #[trigger] in_bounds_spec(*self, d) <==> in_cube(d) by {
            assert(limits_contain(self.x_limits().0, self.x_limits().1, d.x as int) == (0 <= d.x
                < 3));
            assert(limits_contain(self.y_limits().0, self.y_limits().1, d.y as int) == (0 <= d.y
                < 3));
            assert(limits_contain(self.z_limits().0, self.z_limits().1, d.z as int) == (0 <= d.z
                < 3));
        }
    }

    /// `after` holds `v` at `c` and this grid's elements elsewhere.
    pub open spec fn written(&self, c: Coord3, v: T, after: Self) -> bool {
        &&& after.at(c) == v
        &&& forall|d: Coord3| in_cube(d) && d != c ==> #[trigger] after.at(d) == self.at(d)
    }

    /// Fill the grid by calling `startval` once per cell, `x` fastest and `z` slowest.
    pub fn new<F: Fn(Coord3) -> T>(startval: F) -> (r: Self)
        requires
            forall|c: Coord3| in_cube(c) ==> #[trigger] startval.requires((c,)),
        ensures
            forall|c: Coord3| in_cube(c) ==> startval.ensures((c,), #[trigger] r.at(c)),
    {
        let e000 = startval(Coord3 { x: 0, y: 0, z: 0 });
        let e100 = startval(Coord3 { x: 1, y: 0, z: 0 });
        let e200 = startval(Coord3 { x: 2, y: 0, z: 0 });
        let e010 = startval(Coord3 { x: 0, y: 1, z: 0 });
        let e110 = startval(Coord3 { x: 1, y: 1, z: 0 });
        let e210 = startval(Coord3 { x: 2, y: 1, z: 0 });
        let e020 = startval(Coord3 { x: 0, y: 2, z: 0 });
        let e120 = startval(Coord3 { x: 1, y: 2, z: 0 });
        let e220 = startval(Coord3 { x: 2, y: 2, z: 0 });
        let e001 = startval(Coord3 { x: 0, y: 0, z: 1 });
        let e101 = startval(Coord3 { x: 1, y: 0, z: 1 });
        let e201 = startval(Coord3 { x: 2, y: 0, z: 1 });
        let e011 = startval(Coord3 { x: 0, y: 1, z: 1 });
        let e111 = startval(Coord3 { x: 1, y: 1, z: 1 });
        let e211 = startval(Coord3 { x: 2, y: 1, z: 1 });
        let e021 = startval(Coord3 { x: 0, y: 2, z: 1 });
        let e121 = startval(Coord3 { x: 1, y: 2, z: 1 });
        let e221 = startval(Coord3 { x: 2, y: 2, z: 1 });
        let e002 = startval(Coord3 { x: 0, y: 0, z: 2 });
        let e102 = startval(Coord3 { x: 1, y: 0, z: 2 });
        let e202 = startval(Coord3 { x: 2, y: 0, z: 2 });
        let e012 = startval(Coord3 { x: 0, y: 1, z: 2 });
        let e112 = startval(Coord3 { x: 1, y: 1, z: 2 });
        let e212 = startval(Coord3 { x: 2, y: 1, z: 2 });
        let e022 = startval(Coord3 { x: 0, y: 2, z: 2 });
        let e122 = startval(Coord3 { x: 1, y: 2, z: 2 });
        let e222 = startval(Coord3 { x: 2, y: 2, z: 2 });
        let r = Inline3x3x3Grid { array: [[[e000, e001, e002], [e010, e011, e012], [e020, e021, e022]], [[e100, e101, e102], [e110, e111, e112], [e120, e121, e122]], [[e200, e201, e202], [e210, e211, e212], [e220, e221, e222]]] };
        assert forall|c: Coord3| in_cube(c) implies startval.ensures((c,), #[trigger] r.at(c)) by {
            assert(c.x == 0 || c.x == 1 || c.x == 2);
            assert(c.y == 0 || c.y == 1 || c.y == 2);
            assert(c.z == 0 || c.z == 1 || c.z == 2);
        }
        r
    }

    /// Every cell a clone of `startval`.
    pub fn broadcast(startval: T) -> (r: Self)
        where
            T: Clone,
        ensures
            forall|c: Coord3| in_cube(c) ==> cloned(startval, #[trigger] r.at(c)),
    {
        let s = &startval;
        let f = |c: Coord3| -> (e: T)
            ensures
                cloned(*s, e),
            { s.clone() };
        Self::new(f)
    }
}

impl<T> From<[[[T; 3]; 3]; 3]> for Inline3x3x3Grid<T> {
    fn from(array: [[[T; 3]; 3]; 3]) -> (r: Self) {
        Inline3x3x3Grid { array }
    }
}

impl<T> vstd::std_specs::convert::FromSpecImpl<[[[T; 3]; 3]; 3]> for Inline3x3x3Grid<T> {
    open spec fn obeys_from_spec() -> bool {
        true
    }

    closed spec fn from_spec(array: [[[T; 3]; 3]; 3]) -> Self {
        Inline3x3x3Grid { array }
    }
}

impl<T> Inline3x3x3Grid<T> {
    /// A grid converted from an array, indexed `[x][y][z]`, holds its elements.
    pub proof fn lemma_from_array(array: [[[T; 3]; 3]; 3])
        ensures
            forall|c: Coord3|
                in_cube(c) ==> #[trigger] <Self as FromSpec<[[[T; 3]; 3]; 3]>>::from_spec(array).at(c)
                    == array[c.x as int][c.y as int][c.z as int],
    {
    }
}

impl<T> Grid3 for Inline3x3x3Grid<T> {
    type Item = T;

    type XBound = Range0To;

    type YBound = Range0To;


    type ZBound = Range0To;

    open spec fn wf(&self) -> bool {
        true
    }

    open spec fn x_limits(&self) -> (Limit, Limit) {
        (Limit::Included(0), Limit::Excluded(3))
    }

    open spec fn y_limits(&self) -> (Limit, Limit) {
        (Limit::Included(0), Limit::Excluded(3))
    }

    open spec fn z_limits(&self) -> (Limit, Limit) {
        (Limit::Included(0), Limit::Excluded(3))
    }

    fn x_bound(&self) -> (r: Range0To) {
        let r = Range0To { end: 3 };
        assert(limits(r) == (Limit::Included(0), Limit::Excluded(3)));
        r
    }

    fn y_bound(&self) -> (r: Range0To) {
        let r = Range0To { end: 3 };
        assert(limits(r) == (Limit::Included(0), Limit::Excluded(3)));
        r
    }

    fn z_bound(&self) -> (r: Range0To) {
        let r = Range0To { end: 3 };
        assert(limits(r) == (Limit::Included(0), Limit::Excluded(3)));
        r
    }
}

impl<T> Grid3Len for Inline3x3x3Grid<T> {
}

impl<T> Grid3Ref for Inline3x3x3Grid<T> {
    open spec fn refers(&self, c: Coord3, v: T) -> bool {
        v == self.at(c)
    }

    fn idx(&self, coord: Coord3) -> (r: &T) {
        proof {
            self.lemma_bounds();
        }
        &self.array[coord.x as usize][coord.y as usize][coord.z as usize]
    }
}

impl<T> Grid3Mut for Inline3x3x3Grid<T> {
    open spec fn lends(&self, c: Coord3, cur: T, fin: T, after: Self) -> bool {
        &&& cur == self.at(c)
        &&& self.written(c, fin, after)
    }

    fn midx(&mut self, coord: Coord3) -> (r: &mut T) {
        proof {
            self.lemma_bounds();
        }
        &mut self.array[coord.x as usize][coord.y as usize][coord.z as usize]
    }
}

impl<T: Clone> Grid3Get for Inline3x3x3Grid<T> {
    open spec fn gives(&self, c: Coord3, v: T) -> bool {
        cloned(self.at(c), v)
    }

    fn get(&self, coord: Coord3) -> (r: T) {
        self.idx(coord).clone()
    }
}

impl<T> Grid3Set for Inline3x3x3Grid<T> {
    open spec fn sets(&self, c: Coord3, v: T, after: Self) -> bool {
        self.written(c, v, after)
    }

    fn set(&mut self, coord: Coord3, elem: T) {
        *self.midx(coord) = elem;
    }
}

} // verus!
