//! Flattening a Grid3 of Grid3.

use vstd::prelude::*;
use crate::range::{
    lemma_rem_fold, limits, limits_contain, lower_incl, scale_fits, scaled, upper_excl, AxisBound,
    Limit, RangeBoundsTimes,
};
use crate::grid3::{in_bounds_spec, Coord3, Grid3, Grid3Get, Grid3Ref};
use crate::grid2::flatten::{
    lemma_div_mod_exact, lemma_quotient_fits, lemma_scaled_contains, lemma_split, scale_fits_axis,
    scaled_axis, split_axis,
};

verus! {

/// Whether `g` admits every coordinate of the `s.x` by `s.y` by `s.z` box at the origin.
pub open spec fn covers<H: Grid3>(g: H, s: Coord3) -> bool {
    forall|c: Coord3|
        0 <= c.x < s.x && 0 <= c.y < s.y && 0 <= c.z < s.z ==> #[trigger] in_bounds_spec(g, c)
}

/// The outer coordinate of `c`: which element grid it falls in.
pub open spec fn outer_of(c: Coord3, stride: Coord3) -> Coord3 {
    Coord3 {
        x: (c.x / stride.x) as i32,
        y: (c.y / stride.y) as i32,
        z: (c.z / stride.z) as i32,
    }
}

/// The inner coordinate of `c`: where it falls inside its element grid.
pub open spec fn inner_of(c: Coord3, stride: Coord3) -> Coord3 {
    Coord3 {
        x: (c.x % stride.x) as i32,
        y: (c.y % stride.y) as i32,
        z: (c.z % stride.z) as i32,
    }
}

/// Flattened Grid3 of Grid3.
///
/// Every element grid must admit every coordinate from the origin up to the stride; this
/// cannot be checked ahead of time, so it is asked of the caller.
pub struct Grid3Flat<G> where
    G: Grid3Ref,
    G::Item: Grid3,
    G::XBound: RangeBoundsTimes,
    G::YBound: RangeBoundsTimes,
    G::ZBound: RangeBoundsTimes,
 {
    doublegrid: G,
    stride: Coord3,
    new_xbound: G::XBound,
    new_ybound: G::YBound,
    new_zbound: G::ZBound,
}

impl<G> Grid3Flat<G> where
    G: Grid3Ref,
    G::Item: Grid3,
    G::XBound: RangeBoundsTimes,
    G::YBound: RangeBoundsTimes,
    G::ZBound: RangeBoundsTimes,
 {
    /// The grid of grids.
    pub closed spec fn doublegrid(&self) -> G {
        self.doublegrid
    }

    /// Side lengths of the cell that each element grid fills.
    pub closed spec fn stride_spec(&self) -> Coord3 {
        self.stride
    }

    /// The stored scaled bounds match the grid of grids' bounds.
    pub closed spec fn cache_ok(&self) -> bool {
        &&& limits(self.new_xbound) == scaled_axis(self.doublegrid.x_limits(), self.stride.x as int)
        &&& limits(self.new_ybound) == scaled_axis(self.doublegrid.y_limits(), self.stride.y as int)
        &&& limits(self.new_zbound) == scaled_axis(self.doublegrid.z_limits(), self.stride.z as int)
    }

    /// Every element grid at an in-bounds coordinate is well formed and covers the stride.
    pub open spec fn elements_cover(dg: G, stride: Coord3) -> bool {
        forall|c: Coord3, g: G::Item|
            in_bounds_spec(dg, c) && #[trigger] dg.refers(c, g) ==> g.wf() && covers(g, stride)
    }

    /// Flatten `doublegrid`, each of whose elements fills a `stride.x` by `stride.y` by
    /// `stride.z` cell.
    pub fn new(doublegrid: G, stride: Coord3) -> (r: Self)
        requires
            doublegrid.wf(),
            stride.x > 0,
            stride.y > 0,
            stride.z > 0,
            scale_fits_axis(doublegrid.x_limits(), stride.x as int),
            scale_fits_axis(doublegrid.y_limits(), stride.y as int),
            scale_fits_axis(doublegrid.z_limits(), stride.z as int),
            Self::elements_cover(doublegrid, stride),
        ensures
            r.wf(),
            r.doublegrid() == doublegrid,
            r.stride_spec() == stride,
    {
        let new_xbound = doublegrid.x_bound().times(stride.x);
        let new_ybound = doublegrid.y_bound().times(stride.y);
        let new_zbound = doublegrid.z_bound().times(stride.z);
        Grid3Flat { doublegrid, stride, new_xbound, new_ybound, new_zbound }
    }

    pub fn stride(&self) -> (r: Coord3)
        ensures
            r == self.stride_spec(),
    {
        self.stride
    }

    /// Split `coord` into the coordinate of its element grid and the coordinate inside it.
    pub fn outer_inner_coord(&self, coord: Coord3) -> (r: (Coord3, Coord3))
        requires
            self.wf(),
        ensures
            r.0 == outer_of(coord, self.stride_spec()),
            r.1 == inner_of(coord, self.stride_spec()),
    {
        let (div_x, rem_x) = split_axis(coord.x, self.stride.x);
        let (div_y, rem_y) = split_axis(coord.y, self.stride.y);
        let (div_z, rem_z) = split_axis(coord.z, self.stride.z);
        (Coord3 { x: div_x, y: div_y, z: div_z }, Coord3 { x: rem_x, y: rem_y, z: rem_z })
    }

    /// An in-bounds coordinate splits into an in-bounds outer coordinate and an inner one
    /// inside the stride.
    proof fn lemma_split_in_bounds(&self, c: Coord3)
        requires
            self.wf(),
            in_bounds_spec(*self, c),
        ensures
            in_bounds_spec(self.doublegrid(), outer_of(c, self.stride_spec())),
            0 <= inner_of(c, self.stride_spec()).x < self.stride_spec().x,
            0 <= inner_of(c, self.stride_spec()).y < self.stride_spec().y,
            0 <= inner_of(c, self.stride_spec()).z < self.stride_spec().z,
    {
        let s = self.stride_spec();
        lemma_scaled_contains(self.doublegrid().x_limits(), s.x as int, c.x as int);
        lemma_scaled_contains(self.doublegrid().y_limits(), s.y as int, c.y as int);
        lemma_scaled_contains(self.doublegrid().z_limits(), s.z as int, c.z as int);
        lemma_split(c.x as int, s.x as int);
        lemma_split(c.y as int, s.y as int);
        lemma_split(c.z as int, s.z as int);
        lemma_quotient_fits(c.x as int, s.x as int);
        lemma_quotient_fits(c.y as int, s.y as int);
        lemma_quotient_fits(c.z as int, s.z as int);
    }
}

impl<G> Grid3 for Grid3Flat<G> where
    G: Grid3Ref,
    G::Item: Grid3,
    G::XBound: RangeBoundsTimes,
    G::YBound: RangeBoundsTimes,
    G::ZBound: RangeBoundsTimes,
 {
    type Item = <G::Item as Grid3>::Item;

    type XBound = G::XBound;

    type YBound = G::YBound;

    type ZBound = G::ZBound;

    open spec fn wf(&self) -> bool {
        &&& self.doublegrid().wf()
        &&& self.stride_spec().x > 0
        &&& self.stride_spec().y > 0
        &&& self.stride_spec().z > 0
        &&& scale_fits_axis(self.doublegrid().x_limits(), self.stride_spec().x as int)
        &&& scale_fits_axis(self.doublegrid().y_limits(), self.stride_spec().y as int)
        &&& scale_fits_axis(self.doublegrid().z_limits(), self.stride_spec().z as int)
        &&& Self::elements_cover(self.doublegrid(), self.stride_spec())
        &&& self.cache_ok()
    }

    open spec fn x_limits(&self) -> (Limit, Limit) {
        scaled_axis(self.doublegrid().x_limits(), self.stride_spec().x as int)
    }

    open spec fn y_limits(&self) -> (Limit, Limit) {
        scaled_axis(self.doublegrid().y_limits(), self.stride_spec().y as int)
    }

    open spec fn z_limits(&self) -> (Limit, Limit) {
        scaled_axis(self.doublegrid().z_limits(), self.stride_spec().z as int)
    }

    fn x_bound(&self) -> (r: G::XBound) {
        self.new_xbound.duplicate()
    }

    fn y_bound(&self) -> (r: G::YBound) {
        self.new_ybound.duplicate()
    }

    fn z_bound(&self) -> (r: G::ZBound) {
        self.new_zbound.duplicate()
    }
}

impl<G> Grid3Get for Grid3Flat<G> where
    G: Grid3Ref,
    G::Item: Grid3Get,
    G::XBound: RangeBoundsTimes,
    G::YBound: RangeBoundsTimes,
    G::ZBound: RangeBoundsTimes,
 {
    open spec fn gives(&self, c: Coord3, v: Self::Item) -> bool {
        exists|g: G::Item|
            #[trigger] self.doublegrid().refers(outer_of(c, self.stride_spec()), g) && g.gives(
                inner_of(c, self.stride_spec()),
                v,
            )
    }

    fn get(&self, coord: Coord3) -> (r: Self::Item) {
        proof {
            self.lemma_split_in_bounds(coord);
        }
        let (outer, inner) = self.outer_inner_coord(coord);
        let g = self.doublegrid.idx(outer);
        proof {
            assert(covers(*g, self.stride_spec()));
            assert(in_bounds_spec(*g, inner));
        }
        g.get(inner)
    }
}

impl<G> Grid3Ref for Grid3Flat<G> where
    G: Grid3Ref,
    G::Item: Grid3Ref,
    G::XBound: RangeBoundsTimes,
    G::YBound: RangeBoundsTimes,
    G::ZBound: RangeBoundsTimes,
 {
    open spec fn refers(&self, c: Coord3, v: Self::Item) -> bool {
        exists|g: G::Item|
            #[trigger] self.doublegrid().refers(outer_of(c, self.stride_spec()), g) && g.refers(
                inner_of(c, self.stride_spec()),
                v,
            )
    }

    fn idx(&self, coord: Coord3) -> (r: &Self::Item) {
        proof {
            self.lemma_split_in_bounds(coord);
        }
        let (outer, inner) = self.outer_inner_coord(coord);
        let g = self.doublegrid.idx(outer);
        proof {
            assert(covers(*g, self.stride_spec()));
            assert(in_bounds_spec(*g, inner));
        }
        g.idx(inner)
    }
}

/// Flattening with stride `(sx, sy, sz)`, then reading at
/// `(a * sx + r, b * sy + s, c * sz + t)` with the inner offsets inside the stride, may give
/// exactly what reading the element grid at outer coordinate `(a, b, c)` at inner
/// coordinate `(r, s, t)` may give.
pub proof fn lemma_flatten_split<G>(f: Grid3Flat<G>, outer: Coord3, inner: Coord3)
    where
        G: Grid3Ref,
        G::Item: Grid3Get,
        G::XBound: RangeBoundsTimes,
        G::YBound: RangeBoundsTimes,
        G::ZBound: RangeBoundsTimes,
    requires
        f.wf(),
        0 <= inner.x < f.stride_spec().x,
        0 <= inner.y < f.stride_spec().y,
        0 <= inner.z < f.stride_spec().z,
        i32::MIN <= outer.x * f.stride_spec().x + inner.x <= i32::MAX,
        i32::MIN <= outer.y * f.stride_spec().y + inner.y <= i32::MAX,
        i32::MIN <= outer.z * f.stride_spec().z + inner.z <= i32::MAX,
    ensures
        ({
            let c = Coord3 {
                x: (outer.x * f.stride_spec().x + inner.x) as i32,
                y: (outer.y * f.stride_spec().y + inner.y) as i32,
                z: (outer.z * f.stride_spec().z + inner.z) as i32,
            };
            &&& outer_of(c, f.stride_spec()) == outer
            &&& inner_of(c, f.stride_spec()) == inner
            &&& forall|v: <G::Item as Grid3>::Item|
                f.gives(c, v) <==> exists|g: G::Item|
                    #[trigger] f.doublegrid().refers(outer, g) && g.gives(inner, v)
        }),
{
    let s = f.stride_spec();
    lemma_div_mod_exact(outer.x as int, inner.x as int, s.x as int);
    lemma_div_mod_exact(outer.y as int, inner.y as int, s.y as int);
    lemma_div_mod_exact(outer.z as int, inner.z as int, s.z as int);
}

} // verus!
