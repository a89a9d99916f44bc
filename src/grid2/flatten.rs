//! Flattening a Grid2 of Grid2.

use vstd::prelude::*;
use crate::range::{
    lemma_rem_fold, limits, limits_contain, lower_incl, scale_fits, scaled, upper_excl, AxisBound,
    Limit, RangeBoundsTimes,
};
use crate::grid2::{in_bounds_spec, Coord, Grid2, Grid2Get, Grid2Ref};

verus! {

/// Whether both limits of an axis can be multiplied by `n`, and the lower one is not
/// exclusive.
pub open spec fn scale_fits_axis(l: (Limit, Limit), n: int) -> bool {
    &&& scale_fits(l.0, n)
    &&& scale_fits(l.1, n)
    &&& !(l.0 is Excluded)
}

/// The limits of an axis multiplied by `n`.
pub open spec fn scaled_axis(l: (Limit, Limit), n: int) -> (Limit, Limit) {
    (scaled(l.0, n), scaled(l.1, n))
}

/// Whether `g` admits every coordinate of the `s.x` by `s.y` rectangle at the origin.
pub open spec fn covers<H: Grid2>(g: H, s: Coord) -> bool {
    forall|c: Coord| 0 <= c.x < s.x && 0 <= c.y < s.y ==> #[trigger] in_bounds_spec(g, c)
}

/// A value in a scaled axis has its floor quotient in the unscaled axis.
pub proof fn lemma_scaled_contains(l: (Limit, Limit), n: int, v: int)
    requires
        n > 0,
        scale_fits_axis(l, n),
        limits_contain(scaled_axis(l, n).0, scaled_axis(l, n).1, v),
    ensures
        limits_contain(l.0, l.1, v / n),
{
    match l.0 {
        Limit::Included(i) => {
            vstd::arithmetic::div_mod::lemma_div_is_ordered(i * n, v, n);
            vstd::arithmetic::div_mod::lemma_div_multiples_vanish(i as int, n);
            assert(i * n == n * i) by (nonlinear_arith);
        },
        _ => {},
    }
    match l.1 {
        Limit::Included(e) => {
            assert(v <= e * n);
            vstd::arithmetic::div_mod::lemma_div_is_ordered(v, e * n, n);
            vstd::arithmetic::div_mod::lemma_div_multiples_vanish(e as int, n);
            assert(e * n == n * e) by (nonlinear_arith);
            assert(v / n <= e);
        },
        Limit::Excluded(e) => {
            vstd::arithmetic::div_mod::lemma_div_is_ordered(v, e * n - 1, n);
            vstd::arithmetic::div_mod::lemma_fundamental_div_mod(e * n - 1, n);
            assert((e * n - 1) / n < e) by (nonlinear_arith)
                requires
                    n > 0,
                    e * n - 1 == n * ((e * n - 1) / n) + (e * n - 1) % n,
                    0 <= (e * n - 1) % n,
            ;
        },
        _ => {},
    }
}

/// `v` and `s * (v / s) + v % s` agree, with the remainder in `[0, s)`.
pub proof fn lemma_split(v: int, s: int)
    requires
        s > 0,
    ensures
        v == s * (v / s) + v % s,
        0 <= v % s < s,
{
    vstd::arithmetic::div_mod::lemma_fundamental_div_mod(v, s);
}

/// The outer coordinate of `c`: which element grid it falls in.
pub open spec fn outer_of(c: Coord, stride: Coord) -> Coord {
    Coord { x: (c.x / stride.x) as i32, y: (c.y / stride.y) as i32 }
}

/// The inner coordinate of `c`: where it falls inside its element grid.
pub open spec fn inner_of(c: Coord, stride: Coord) -> Coord {
    Coord { x: (c.x % stride.x) as i32, y: (c.y % stride.y) as i32 }
}

/// Flattened Grid2 of Grid2.
///
/// Every element grid must admit every coordinate from the origin up to the stride; this
/// cannot be checked ahead of time, so it is asked of the caller.
pub struct Grid2Flat<G> where
    G: Grid2Ref,
    G::Item: Grid2,
    G::XBound: RangeBoundsTimes,
    G::YBound: RangeBoundsTimes,
 {
    doublegrid: G,
    stride: Coord,
    new_xbound: G::XBound,
    new_ybound: G::YBound,
}

impl<G> Grid2Flat<G> where
    G: Grid2Ref,
    G::Item: Grid2,
    G::XBound: RangeBoundsTimes,
    G::YBound: RangeBoundsTimes,
 {
    /// The grid of grids.
    pub closed spec fn doublegrid(&self) -> G {
        self.doublegrid
    }

    /// Side lengths of the cell that each element grid fills.
    pub closed spec fn stride_spec(&self) -> Coord {
        self.stride
    }

    /// The stored scaled bounds match the grid of grids' bounds.
    pub closed spec fn cache_ok(&self) -> bool {
        &&& limits(self.new_xbound) == scaled_axis(self.doublegrid.x_limits(), self.stride.x as int)
        &&& limits(self.new_ybound) == scaled_axis(self.doublegrid.y_limits(), self.stride.y as int)
    }

    /// Every element grid at an in-bounds coordinate is well formed and covers the stride.
    pub open spec fn elements_cover(dg: G, stride: Coord) -> bool {
        forall|c: Coord, g: G::Item|
            in_bounds_spec(dg, c) && #[trigger] dg.refers(c, g) ==> g.wf() && covers(g, stride)
    }

    /// Flatten `doublegrid`, each of whose elements fills a `stride.x` by `stride.y` cell.
    pub fn new(doublegrid: G, stride: Coord) -> (r: Self)
        requires
            doublegrid.wf(),
            stride.x > 0,
            stride.y > 0,
            scale_fits_axis(doublegrid.x_limits(), stride.x as int),
            scale_fits_axis(doublegrid.y_limits(), stride.y as int),
            Self::elements_cover(doublegrid, stride),
        ensures
            r.wf(),
            r.doublegrid() == doublegrid,
            r.stride_spec() == stride,
    {
        let new_xbound = doublegrid.x_bound().times(stride.x);
        let new_ybound = doublegrid.y_bound().times(stride.y);
        Grid2Flat { doublegrid, stride, new_xbound, new_ybound }
    }

    pub fn stride(&self) -> (r: Coord)
        ensures
            r == self.stride_spec(),
    {
        self.stride
    }

    /// Split `coord` into the coordinate of its element grid and the coordinate inside it.
    pub fn outer_inner_coord(&self, coord: Coord) -> (r: (Coord, Coord))
        requires
            self.wf(),
        ensures
            r.0 == outer_of(coord, self.stride_spec()),
            r.1 == inner_of(coord, self.stride_spec()),
    {
        let (div_x, rem_x) = split_axis(coord.x, self.stride.x);
        let (div_y, rem_y) = split_axis(coord.y, self.stride.y);
        (Coord { x: div_x, y: div_y }, Coord { x: rem_x, y: rem_y })
    }

    /// An in-bounds coordinate splits into an in-bounds outer coordinate and an inner one
    /// inside the stride.
    proof fn lemma_split_in_bounds(&self, c: Coord)
        requires
            self.wf(),
            in_bounds_spec(*self, c),
        ensures
            in_bounds_spec(self.doublegrid(), outer_of(c, self.stride_spec())),
            0 <= inner_of(c, self.stride_spec()).x < self.stride_spec().x,
            0 <= inner_of(c, self.stride_spec()).y < self.stride_spec().y,
    {
        let s = self.stride_spec();
        lemma_scaled_contains(self.doublegrid().x_limits(), s.x as int, c.x as int);
        lemma_scaled_contains(self.doublegrid().y_limits(), s.y as int, c.y as int);
        lemma_split(c.x as int, s.x as int);
        lemma_split(c.y as int, s.y as int);
        lemma_quotient_fits(c.x as int, s.x as int);
        lemma_quotient_fits(c.y as int, s.y as int);
    }
}

/// The floor quotient of an `i32` by a positive number is an `i32`.
pub(crate) proof fn lemma_quotient_fits(v: int, s: int)
    requires
        s > 0,
        i32::MIN <= v <= i32::MAX,
    ensures
        i32::MIN <= v / s <= i32::MAX,
{
    lemma_split(v, s);
    lemma_floor_div_min(s);
    vstd::arithmetic::div_mod::lemma_div_is_ordered(i32::MIN as int, v, s);
    let q = v / s;
    if q >= 0 {
        assert(q <= v) by (nonlinear_arith)
            requires
                v == s * q + v % s,
                0 <= v % s,
                s >= 1,
                q >= 0,
        ;
    }
}

impl<G> Grid2 for Grid2Flat<G> where
    G: Grid2Ref,
    G::Item: Grid2,
    G::XBound: RangeBoundsTimes,
    G::YBound: RangeBoundsTimes,
 {
    type Item = <G::Item as Grid2>::Item;

    type XBound = G::XBound;

    type YBound = G::YBound;

    open spec fn wf(&self) -> bool {
        &&& self.doublegrid().wf()
        &&& self.stride_spec().x > 0
        &&& self.stride_spec().y > 0
        &&& scale_fits_axis(self.doublegrid().x_limits(), self.stride_spec().x as int)
        &&& scale_fits_axis(self.doublegrid().y_limits(), self.stride_spec().y as int)
        &&& Self::elements_cover(self.doublegrid(), self.stride_spec())
        &&& self.cache_ok()
    }

    open spec fn x_limits(&self) -> (Limit, Limit) {
        scaled_axis(self.doublegrid().x_limits(), self.stride_spec().x as int)
    }

    open spec fn y_limits(&self) -> (Limit, Limit) {
        scaled_axis(self.doublegrid().y_limits(), self.stride_spec().y as int)
    }

    fn x_bound(&self) -> (r: G::XBound) {
        self.new_xbound.duplicate()
    }

    fn y_bound(&self) -> (r: G::YBound) {
        self.new_ybound.duplicate()
    }
}

impl<G> Grid2Get for Grid2Flat<G> where
    G: Grid2Ref,
    G::Item: Grid2Get,
    G::XBound: RangeBoundsTimes,
    G::YBound: RangeBoundsTimes,
 {
    open spec fn gives(&self, c: Coord, v: Self::Item) -> bool {
        exists|g: G::Item|
            #[trigger] self.doublegrid().refers(outer_of(c, self.stride_spec()), g) && g.gives(
                inner_of(c, self.stride_spec()),
                v,
            )
    }

    fn get(&self, coord: Coord) -> (r: Self::Item) {
        proof {
            self.lemma_split_in_bounds(coord);
        }
        let (outer, inner) = self.outer_inner_coord(coord);
        let g = self.doublegrid.idx(outer);
        proof {
            assert(covers(*g, self.stride_spec()));
            assert(in_bounds_spec(*g, inner));
        }
        g.get(inner)
    }
}

impl<G> Grid2Ref for Grid2Flat<G> where
    G: Grid2Ref,
    G::Item: Grid2Ref,
    G::XBound: RangeBoundsTimes,
    G::YBound: RangeBoundsTimes,
 {
    open spec fn refers(&self, c: Coord, v: Self::Item) -> bool {
        exists|g: G::Item|
            #[trigger] self.doublegrid().refers(outer_of(c, self.stride_spec()), g) && g.refers(
                inner_of(c, self.stride_spec()),
                v,
            )
    }

    fn idx(&self, coord: Coord) -> (r: &Self::Item) {
        proof {
            self.lemma_split_in_bounds(coord);
        }
        let (outer, inner) = self.outer_inner_coord(coord);
        let g = self.doublegrid.idx(outer);
        proof {
            assert(covers(*g, self.stride_spec()));
            assert(in_bounds_spec(*g, inner));
        }
        g.idx(inner)
    }
}

/// Flattening with stride `(sx, sy)`, then reading at `(a * sx + r, b * sy + s)` with
/// `0 <= r < sx` and `0 <= s < sy`, may give exactly what reading the element grid at outer
/// coordinate `(a, b)` at inner coordinate `(r, s)` may give.
pub proof fn lemma_flatten_split<G>(f: Grid2Flat<G>, a: int, b: int, r: int, s: int)
    where
        G: Grid2Ref,
        G::Item: Grid2Get,
        G::XBound: RangeBoundsTimes,
        G::YBound: RangeBoundsTimes,
    requires
        f.wf(),
        0 <= r < f.stride_spec().x,
        0 <= s < f.stride_spec().y,
        i32::MIN <= a * f.stride_spec().x + r <= i32::MAX,
        i32::MIN <= b * f.stride_spec().y + s <= i32::MAX,
    ensures
        ({
            let c = Coord {
                x: (a * f.stride_spec().x + r) as i32,
                y: (b * f.stride_spec().y + s) as i32,
            };
            &&& outer_of(c, f.stride_spec()) == Coord { x: a as i32, y: b as i32 }
            &&& inner_of(c, f.stride_spec()) == Coord { x: r as i32, y: s as i32 }
            &&& forall|v: <G::Item as Grid2>::Item|
                f.gives(c, v) <==> exists|g: G::Item|
                    #[trigger] f.doublegrid().refers(Coord { x: a as i32, y: b as i32 }, g)
                        && g.gives(Coord { x: r as i32, y: s as i32 }, v)
        }),
{
    let sx = f.stride_spec().x as int;
    let sy = f.stride_spec().y as int;
    lemma_div_mod_exact(a, r, sx);
    lemma_div_mod_exact(b, s, sy);
    lemma_quotient_fits(a * sx + r, sx);
    lemma_quotient_fits(b * sy + s, sy);
}

/// `(q * s + r) / s == q` and `(q * s + r) % s == r` for `0 <= r < s`.
pub(crate) proof fn lemma_div_mod_exact(q: int, r: int, s: int)
    requires
        0 <= r < s,
    ensures
        (q * s + r) / s == q,
        (q * s + r) % s == r,
{
    vstd::arithmetic::div_mod::lemma_fundamental_div_mod_converse(q * s + r, s, q, r);
}

/// Split `v` by `s` into floor quotient and non-negative remainder.
pub(crate) fn split_axis(v: i32, s: i32) -> (r: (i32, i32))
    requires
        s > 0,
    ensures
        r.0 == v / s,
        r.1 == v % s,
{
    let v = v as i64;
    let s = s as i64;
    let t = v % s;
    proof {
        lemma_rem_fold(v as int, s as int, t as int);
    }
    let rem = (t + s) % s;
    let d = v - rem;
    proof {
        lemma_split(v as int, s as int);
        let q = v as int / s as int;
        assert(d == s * q);
        if q >= 0 {
            vstd::arithmetic::div_mod::lemma_div_multiples_vanish(q, s as int);
            assert(d >= 0) by (nonlinear_arith)
                requires
                    d == s * q,
                    q >= 0,
                    s > 0,
            ;
        } else {
            vstd::arithmetic::div_mod::lemma_div_multiples_vanish(-q, s as int);
            assert(d < 0) by (nonlinear_arith)
                requires
                    d == s * q,
                    q < 0,
                    s > 0,
            ;
            assert(-d == s * (-q)) by (nonlinear_arith)
                requires
                    d == s * q,
            ;
        }
        assert(i32::MIN <= q <= i32::MAX) by {
            if q >= 0 {
                assert(q <= v) by (nonlinear_arith)
                    requires
                        v == s * q + v as int % s as int,
                        0 <= v as int % s as int,
                        s >= 1,
                        q >= 0,
                ;
            } else {
                vstd::arithmetic::div_mod::lemma_div_is_ordered(i32::MIN as int, v as int, s as int);
                lemma_floor_div_min(s as int);
            }
        }
    }
    let div = d / s;
    (div as i32, rem as i32)
}

/// Dividing `i32::MIN` by a positive number stays within `i32`.
pub(crate) proof fn lemma_floor_div_min(s: int)
    requires
        s > 0,
    ensures
        (i32::MIN as int) / s >= i32::MIN,
{
    lemma_split(i32::MIN as int, s);
    let q = (i32::MIN as int) / s;
    assert(q >= i32::MIN) by (nonlinear_arith)
        requires
            s > 0,
            i32::MIN == s * q + (i32::MIN as int) % s,
            0 <= (i32::MIN as int) % s < s,
    ;
}

} // verus!
