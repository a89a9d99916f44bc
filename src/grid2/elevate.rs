//! Pointer types that wrap a grid are grids too: shared access forwards the reads, owning
//! access the writes as well.

use vstd::prelude::*;
use crate::range::Limit;
use crate::grid2::{Coord, Grid2, Grid2Get, Grid2Len, Grid2Mut, Grid2Ref, Grid2Set};

verus! {

impl<'a, G: Grid2> Grid2 for &'a G {
    type Item = G::Item;

    type XBound = G::XBound;

    type YBound = G::YBound;

    open spec fn wf(&self) -> bool {
        (**self).wf()
    }

    open spec fn x_limits(&self) -> (Limit, Limit) {
        (**self).x_limits()
    }

    open spec fn y_limits(&self) -> (Limit, Limit) {
        (**self).y_limits()
    }

    fn x_bound(&self) -> (r: G::XBound) {
        (**self).x_bound()
    }

    fn y_bound(&self) -> (r: G::YBound) {
        (**self).y_bound()
    }
}

impl<'a, G: Grid2Len> Grid2Len for &'a G {
}

impl<'a, G: Grid2Get> Grid2Get for &'a G {
    open spec fn gives(&self, c: Coord, v: G::Item) -> bool {
        (**self).gives(c, v)
    }

    fn get(&self, coord: Coord) -> (r: G::Item) {
        (**self).get(coord)
    }
}

impl<'a, G: Grid2Ref> Grid2Ref for &'a G {
    open spec fn refers(&self, c: Coord, v: G::Item) -> bool {
        (**self).refers(c, v)
    }

    fn idx(&self, coord: Coord) -> (r: &G::Item) {
        (**self).idx(coord)
    }
}

impl<G: Grid2> Grid2 for Box<G> {
    type Item = G::Item;

    type XBound = G::XBound;

    type YBound = G::YBound;

    open spec fn wf(&self) -> bool {
        (**self).wf()
    }

    open spec fn x_limits(&self) -> (Limit, Limit) {
        (**self).x_limits()
    }

    open spec fn y_limits(&self) -> (Limit, Limit) {
        (**self).y_limits()
    }

    fn x_bound(&self) -> (r: G::XBound) {
        (**self).x_bound()
    }

    fn y_bound(&self) -> (r: G::YBound) {
        (**self).y_bound()
    }
}

impl<G: Grid2Len> Grid2Len for Box<G> {
}

impl<G: Grid2Get> Grid2Get for Box<G> {
    open spec fn gives(&self, c: Coord, v: G::Item) -> bool {
        (**self).gives(c, v)
    }

    fn get(&self, coord: Coord) -> (r: G::Item) {
        (**self).get(coord)
    }
}

impl<G: Grid2Ref> Grid2Ref for Box<G> {
    open spec fn refers(&self, c: Coord, v: G::Item) -> bool {
        (**self).refers(c, v)
    }

    fn idx(&self, coord: Coord) -> (r: &G::Item) {
        (**self).idx(coord)
    }
}

impl<G: Grid2Set> Grid2Set for Box<G> {
    open spec fn sets(&self, c: Coord, v: G::Item, after: Self) -> bool {
        (**self).sets(c, v, *after)
    }

    fn set(&mut self, coord: Coord, elem: G::Item) {
        (**self).set(coord, elem)
    }
}

impl<G: Grid2Mut> Grid2Mut for Box<G> {
    open spec fn lends(&self, c: Coord, cur: G::Item, fin: G::Item, after: Self) -> bool {
        (**self).lends(c, cur, fin, *after)
    }

    fn midx(&mut self, coord: Coord) -> (r: &mut G::Item) {
        (**self).midx(coord)
    }
}

impl<G: Grid2> Grid2 for std::rc::Rc<G> {
    type Item = G::Item;

    type XBound = G::XBound;

    type YBound = G::YBound;

    open spec fn wf(&self) -> bool {
        (**self).wf()
    }

    open spec fn x_limits(&self) -> (Limit, Limit) {
        (**self).x_limits()
    }

    open spec fn y_limits(&self) -> (Limit, Limit) {
        (**self).y_limits()
    }

    fn x_bound(&self) -> (r: G::XBound) {
        (**self).x_bound()
    }

    fn y_bound(&self) -> (r: G::YBound) {
        (**self).y_bound()
    }
}

impl<G: Grid2Len> Grid2Len for std::rc::Rc<G> {
}

impl<G: Grid2Get> Grid2Get for std::rc::Rc<G> {
    open spec fn gives(&self, c: Coord, v: G::Item) -> bool {
        (**self).gives(c, v)
    }

    fn get(&self, coord: Coord) -> (r: G::Item) {
        (**self).get(coord)
    }
}

impl<G: Grid2Ref> Grid2Ref for std::rc::Rc<G> {
    open spec fn refers(&self, c: Coord, v: G::Item) -> bool {
        (**self).refers(c, v)
    }

    fn idx(&self, coord: Coord) -> (r: &G::Item) {
        (**self).idx(coord)
    }
}

impl<G: Grid2> Grid2 for std::sync::Arc<G> {
    type Item = G::Item;

    type XBound = G::XBound;

    type YBound = G::YBound;

    open spec fn wf(&self) -> bool {
        (**self).wf()
    }

    open spec fn x_limits(&self) -> (Limit, Limit) {
        (**self).x_limits()
    }

    open spec fn y_limits(&self) -> (Limit, Limit) {
        (**self).y_limits()
    }

    fn x_bound(&self) -> (r: G::XBound) {
        (**self).x_bound()
    }

    fn y_bound(&self) -> (r: G::YBound) {
        (**self).y_bound()
    }
}

impl<G: Grid2Len> Grid2Len for std::sync::Arc<G> {
}

impl<G: Grid2Get> Grid2Get for std::sync::Arc<G> {
    open spec fn gives(&self, c: Coord, v: G::Item) -> bool {
        (**self).gives(c, v)
    }

    fn get(&self, coord: Coord) -> (r: G::Item) {
        (**self).get(coord)
    }
}

impl<G: Grid2Ref> Grid2Ref for std::sync::Arc<G> {
    open spec fn refers(&self, c: Coord, v: G::Item) -> bool {
        (**self).refers(c, v)
    }

    fn idx(&self, coord: Coord) -> (r: &G::Item) {
        (**self).idx(coord)
    }
}

} // verus!
