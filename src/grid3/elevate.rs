//! Pointer types that wrap a grid are grids too: shared access forwards the reads, owning
//! access the writes as well.

use vstd::prelude::*;
use crate::range::Limit;
use crate::grid3::{Coord3, Grid3, Grid3Get, Grid3Len, Grid3Mut, Grid3Ref, Grid3Set};

verus! {

impl<'a, G: Grid3> Grid3 for &'a G {
    type Item = G::Item;

    type XBound = G::XBound;

    type YBound = G::YBound;

    type ZBound = G::ZBound;

    open spec fn wf(&self) -> bool {
        (**self).wf()
    }

    open spec fn x_limits(&self) -> (Limit, Limit) {
        (**self).x_limits()
    }

    open spec fn y_limits(&self) -> (Limit, Limit) {
        (**self).y_limits()
    }

    open spec fn z_limits(&self) -> (Limit, Limit) {
        (**self).z_limits()
    }

    fn x_bound(&self) -> (r: G::XBound) {
        (**self).x_bound()
    }

    fn y_bound(&self) -> (r: G::YBound) {
        (**self).y_bound()
    }

    fn z_bound(&self) -> (r: G::ZBound) {
        (**self).z_bound()
    }
}

impl<'a, G: Grid3Len> Grid3Len for &'a G {
}

impl<'a, G: Grid3Get> Grid3Get for &'a G {
    open spec fn gives(&self, c: Coord3, v: G::Item) -> bool {
        (**self).gives(c, v)
    }

    fn get(&self, coord: Coord3) -> (r: G::Item) {
        (**self).get(coord)
    }
}

impl<'a, G: Grid3Ref> Grid3Ref for &'a G {
    open spec fn refers(&self, c: Coord3, v: G::Item) -> bool {
        (**self).refers(c, v)
    }

    fn idx(&self, coord: Coord3) -> (r: &G::Item) {
        (**self).idx(coord)
    }
}

impl<G: Grid3> Grid3 for Box<G> {
    type Item = G::Item;

    type XBound = G::XBound;

    type YBound = G::YBound;

    type ZBound = G::ZBound;

    open spec fn wf(&self) -> bool {
        (**self).wf()
    }

    open spec fn x_limits(&self) -> (Limit, Limit) {
        (**self).x_limits()
    }

    open spec fn y_limits(&self) -> (Limit, Limit) {
        (**self).y_limits()
    }

    open spec fn z_limits(&self) -> (Limit, Limit) {
        (**self).z_limits()
    }

    fn x_bound(&self) -> (r: G::XBound) {
        (**self).x_bound()
    }

    fn y_bound(&self) -> (r: G::YBound) {
        (**self).y_bound()
    }

    fn z_bound(&self) -> (r: G::ZBound) {
        (**self).z_bound()
    }
}

impl<G: Grid3Len> Grid3Len for Box<G> {
}

impl<G: Grid3Get> Grid3Get for Box<G> {
    open spec fn gives(&self, c: Coord3, v: G::Item) -> bool {
        (**self).gives(c, v)
    }

    fn get(&self, coord: Coord3) -> (r: G::Item) {
        (**self).get(coord)
    }
}

impl<G: Grid3Ref> Grid3Ref for Box<G> {
    open spec fn refers(&self, c: Coord3, v: G::Item) -> bool {
        (**self).refers(c, v)
    }

    fn idx(&self, coord: Coord3) -> (r: &G::Item) {
        (**self).idx(coord)
    }
}

impl<G: Grid3Set> Grid3Set for Box<G> {
    open spec fn sets(&self, c: Coord3, v: G::Item, after: Self) -> bool {
        (**self).sets(c, v, *after)
    }

    fn set(&mut self, coord: Coord3, elem: G::Item) {
        (**self).set(coord, elem)
    }
}

impl<G: Grid3Mut> Grid3Mut for Box<G> {
    open spec fn lends(&self, c: Coord3, cur: G::Item, fin: G::Item, after: Self) -> bool {
        (**self).lends(c, cur, fin, *after)
    }

    fn midx(&mut self, coord: Coord3) -> (r: &mut G::Item) {
        (**self).midx(coord)
    }
}

impl<G: Grid3> Grid3 for std::rc::Rc<G> {
    type Item = G::Item;

    type XBound = G::XBound;

    type YBound = G::YBound;

    type ZBound = G::ZBound;

    open spec fn wf(&self) -> bool {
        (**self).wf()
    }

    open spec fn x_limits(&self) -> (Limit, Limit) {
        (**self).x_limits()
    }

    open spec fn y_limits(&self) -> (Limit, Limit) {
        (**self).y_limits()
    }

    open spec fn z_limits(&self) -> (Limit, Limit) {
        (**self).z_limits()
    }

    fn x_bound(&self) -> (r: G::XBound) {
        (**self).x_bound()
    }

    fn y_bound(&self) -> (r: G::YBound) {
        (**self).y_bound()
    }

    fn z_bound(&self) -> (r: G::ZBound) {
        (**self).z_bound()
    }
}

impl<G: Grid3Len> Grid3Len for std::rc::Rc<G> {
}

impl<G: Grid3Get> Grid3Get for std::rc::Rc<G> {
    open spec fn gives(&self, c: Coord3, v: G::Item) -> bool {
        (**self).gives(c, v)
    }

    fn get(&self, coord: Coord3) -> (r: G::Item) {
        (**self).get(coord)
    }
}

impl<G: Grid3Ref> Grid3Ref for std::rc::Rc<G> {
    open spec fn refers(&self, c: Coord3, v: G::Item) -> bool {
        (**self).refers(c, v)
    }

    fn idx(&self, coord: Coord3) -> (r: &G::Item) {
        (**self).idx(coord)
    }
}

impl<G: Grid3> Grid3 for std::sync::Arc<G> {
    type Item = G::Item;

    type XBound = G::XBound;

    type YBound = G::YBound;

    type ZBound = G::ZBound;

    open spec fn wf(&self) -> bool {
        (**self).wf()
    }

    open spec fn x_limits(&self) -> (Limit, Limit) {
        (**self).x_limits()
    }

    open spec fn y_limits(&self) -> (Limit, Limit) {
        (**self).y_limits()
    }

    open spec fn z_limits(&self) -> (Limit, Limit) {
        (**self).z_limits()
    }

    fn x_bound(&self) -> (r: G::XBound) {
        (**self).x_bound()
    }

    fn y_bound(&self) -> (r: G::YBound) {
        (**self).y_bound()
    }

    fn z_bound(&self) -> (r: G::ZBound) {
        (**self).z_bound()
    }
}

impl<G: Grid3Len> Grid3Len for std::sync::Arc<G> {
}

impl<G: Grid3Get> Grid3Get for std::sync::Arc<G> {
    open spec fn gives(&self, c: Coord3, v: G::Item) -> bool {
        (**self).gives(c, v)
    }

    fn get(&self, coord: Coord3) -> (r: G::Item) {
        (**self).get(coord)
    }
}

impl<G: Grid3Ref> Grid3Ref for std::sync::Arc<G> {
    open spec fn refers(&self, c: Coord3, v: G::Item) -> bool {
        (**self).refers(c, v)
    }

    fn idx(&self, coord: Coord3) -> (r: &G::Item) {
        (**self).idx(coord)
    }
}

} // verus!
