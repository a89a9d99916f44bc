//! Three-dimensional data grid: the two-dimensional design with a third axis.

pub mod elevate;
pub mod heap;
pub mod inline3x3x3;
pub mod kolmo;
pub mod kolmoref;
pub mod kolmomut;
pub mod kolmorw;
pub mod wrapping;
pub mod neworigin;
pub mod slice;
pub mod flatten;
pub mod map;
pub mod enumap;
pub mod oobhandler;

use vstd::prelude::*;
use crate::range::{
    contains, limits, limits_contain, narrower, AxisBound, BoundRange, Limit, Range0To,
    RangeBoundsPlus, RangeBoundsTimes,
};
use enumap::Grid3EnuMap;
use crate::grid2::flatten::scale_fits_axis;
use crate::grid2::neworigin::{shift_fits_axis, two_sided_or_open};
use crate::grid2::wrapping::wrappable;
use flatten::Grid3Flat;
use map::Grid3Map;
use neworigin::Grid3NewOrigin;
use oobhandler::Grid3OobHandler;
use slice::Grid3Slice;
use wrapping::Grid3Wrapping;
use heap::in_box;
use inline3x3x3::in_cube;

pub use heap::ArrayGrid3;
pub use inline3x3x3::Inline3x3x3Grid;
pub use kolmo::KolmoGrid3;
pub use kolmoref::KolmoRefGrid3;
pub use kolmomut::KolmoMutGrid3;
pub use kolmorw::KolmoRwGrid3;

verus! {

/// Allocate a grid on the heap, every cell a clone of `startval`.
pub fn allocate<T: Clone>(x_len: i32, y_len: i32, z_len: i32, startval: T) -> (r: ArrayGrid3<T>)
    requires
        x_len >= 0,
        y_len >= 0,
        z_len >= 0,
        x_len * y_len * z_len <= i32::MAX,
    ensures
        r.width() == x_len,
        r.height() == y_len,
        r.depth() == z_len,
        forall|c: Coord3|
            in_box(x_len as int, y_len as int, z_len as int, c) ==> cloned(
                startval,
                #[trigger] r.at(c),
            ),
{
    ArrayGrid3::broadcast(x_len, y_len, z_len, startval)
}

/// Allocate a grid on the heap, populate with a function called once per cell.
pub fn alloc_gen<T, F: Fn(Coord3) -> T>(x_len: i32, y_len: i32, z_len: i32, generator: F) -> (r:
    ArrayGrid3<T>)
    requires
        x_len >= 0,
        y_len >= 0,
        z_len >= 0,
        x_len * y_len * z_len <= i32::MAX,
        forall|c: Coord3|
            in_box(x_len as int, y_len as int, z_len as int, c) ==> #[trigger] generator.requires(
                (c,),
            ),
    ensures
        r.width() == x_len,
        r.height() == y_len,
        r.depth() == z_len,
        forall|c: Coord3|
            in_box(x_len as int, y_len as int, z_len as int, c) ==> generator.ensures(
                (c,),
                #[trigger] r.at(c),
            ),
{
    ArrayGrid3::new(x_len, y_len, z_len, generator)
}

/// Inline 3x3x3 array grid, every cell a clone of `startval`.
pub fn array3x3x3<T: Clone>(startval: T) -> (r: Inline3x3x3Grid<T>)
    ensures
        forall|c: Coord3| in_cube(c) ==> cloned(startval, #[trigger] r.at(c)),
{
    Inline3x3x3Grid::broadcast(startval)
}

/// Inline 3x3x3 array grid, populate with a function called once per cell.
pub fn array3x3x3_gen<T, F: Fn(Coord3) -> T>(generator: F) -> (r: Inline3x3x3Grid<T>)
    requires
        forall|c: Coord3| in_cube(c) ==> #[trigger] generator.requires((c,)),
    ensures
        forall|c: Coord3| in_cube(c) ==> generator.ensures((c,), #[trigger] r.at(c)),
{
    Inline3x3x3Grid::new(generator)
}

/// Represent a coord -> Item function as a grid.
pub fn value_fn<T, F: Fn(Coord3) -> T>(f: F) -> (r: KolmoGrid3<F, T>)
    requires
        forall|c: Coord3| #[trigger] f.requires((c,)),
    ensures
        r.wf(),
        r.func() == f,
{
    KolmoGrid3::new(f)
}

/// Represent a coord -> &Item function as a grid.
pub fn ref_fn<'a, T: 'a, F: Fn(Coord3) -> &'a T>(f: F) -> (r: KolmoRefGrid3<'a, F, T>)
    requires
        forall|c: Coord3| #[trigger] f.requires((c,)),
    ensures
        r.wf(),
        r.func() == f,
{
    KolmoRefGrid3::new(f)
}

/// Represent a coord -> &mut Item function as a grid.
pub fn mut_fn<'a, T: 'a, F: Fn(Coord3) -> &'a mut T>(f: F) -> (r: KolmoMutGrid3<'a, F, T>)
    requires
        forall|c: Coord3| #[trigger] f.requires((c,)),
    ensures
        r.wf(),
        r.func() == f,
{
    KolmoMutGrid3::new(f)
}

/// Read/write through closures.
///
/// This grid owns a *referent* value, and contains a *reader* and
/// *writer* function which immutably and mutably (respectively)
/// borrow the elements from the referent.
pub fn reader_writer<R, T, Fr, Fw>(referent: R, reader: Fr, writer: Fw) -> (r: KolmoRwGrid3<
    R,
    T,
    Fr,
    Fw,
>) where Fr: Fn(Coord3, &R) -> &T, Fw: Fn(Coord3, &mut R) -> &mut T
    requires
        forall|c: Coord3, s: &R| #[trigger] reader.requires((c, s)),
        forall|c: Coord3, s: &mut R| #[trigger] writer.requires((c, s)),
    ensures
        r.wf(),
        r.referent() == referent,
        r.reader() == reader,
        r.writer() == writer,
{
    KolmoRwGrid3::new(referent, reader, writer)
}

/// A grid coordinate.
#[derive(Clone, Copy, Debug, PartialEq, Eq, Hash, Structural)]
pub struct Coord3 {
    pub x: i32,
    pub y: i32,
    pub z: i32,
}

impl Coord3 {
    pub fn new(x: i32, y: i32, z: i32) -> (r: Coord3)
        ensures
            r.x == x,
            r.y == y,
            r.z == z,
    {
        Coord3 { x, y, z }
    }
}

/// Whether `c` lies in both axis bounds of `g`.
pub open spec fn in_bounds_spec<G: Grid3>(g: G, c: Coord3) -> bool {
    &&& limits_contain(g.x_limits().0, g.x_limits().1, c.x as int)
    &&& limits_contain(g.y_limits().0, g.y_limits().1, c.y as int)
    &&& limits_contain(g.z_limits().0, g.z_limits().1, c.z as int)
}

/// Top-level trait for 3D grids.
pub trait Grid3: Sized {
    type Item;

    type XBound: AxisBound;

    type YBound: AxisBound;

    type ZBound: AxisBound;

    /// The grid's internal invariant, which every access needs and every write keeps.
    spec fn wf(&self) -> bool;

    /// Lower and upper limit of the legal `x` values.
    spec fn x_limits(&self) -> (Limit, Limit);

    /// Lower and upper limit of the legal `y` values.
    spec fn y_limits(&self) -> (Limit, Limit);

    /// Lower and upper limit of the legal `z` values.
    spec fn z_limits(&self) -> (Limit, Limit);

    fn x_bound(&self) -> (r: Self::XBound)
        requires
            self.wf(),
        ensures
            limits(r) == self.x_limits(),
    ;

    fn y_bound(&self) -> (r: Self::YBound)
        requires
            self.wf(),
        ensures
            limits(r) == self.y_limits(),
    ;

    fn z_bound(&self) -> (r: Self::ZBound)
        requires
            self.wf(),
        ensures
            limits(r) == self.z_limits(),
    ;

    fn in_bounds(&self, coord: Coord3) -> (r: bool)
        requires
            self.wf(),
        ensures
            r == (limits_contain(self.x_limits().0, self.x_limits().1, coord.x as int)
                && limits_contain(self.y_limits().0, self.y_limits().1, coord.y as int)
                && limits_contain(self.z_limits().0, self.z_limits().1, coord.z as int)),
    {
        contains(&self.x_bound(), coord.x) && contains(&self.y_bound(), coord.y) && contains(
            &self.z_bound(),
            coord.z,
        )
    }
}

/// 3D grid bounded from 0 to a finite number.
pub trait Grid3Len: Grid3<XBound = Range0To, YBound = Range0To, ZBound = Range0To> {
    fn x_len(&self) -> (r: i32)
        requires
            self.wf(),
        ensures
            self.x_limits() == (Limit::Included(0), Limit::Excluded(r)),
    {
        let b = self.x_bound();
        assert(limits(b) == (Limit::Included(0), Limit::Excluded(b.end)));
        b.end
    }

    fn y_len(&self) -> (r: i32)
        requires
            self.wf(),
        ensures
            self.y_limits() == (Limit::Included(0), Limit::Excluded(r)),
    {
        let b = self.y_bound();
        assert(limits(b) == (Limit::Included(0), Limit::Excluded(b.end)));
        b.end
    }

    fn z_len(&self) -> (r: i32)
        requires
            self.wf(),
        ensures
            self.z_limits() == (Limit::Included(0), Limit::Excluded(r)),
    {
        let b = self.z_bound();
        assert(limits(b) == (Limit::Included(0), Limit::Excluded(b.end)));
        b.end
    }
}

/// 3D grid read by value.
pub trait Grid3Get: Grid3 {
    /// `v` is a value that a read at `c` may return.
    spec fn gives(&self, c: Coord3, v: Self::Item) -> bool;

    fn get(&self, coord: Coord3) -> (r: Self::Item)
        requires
            self.wf(),
            in_bounds_spec(*self, coord),
        ensures
            self.gives(coord, r),
    ;

    fn try_get(&self, coord: Coord3) -> (r: Option<Self::Item>)
        requires
            self.wf(),
        ensures
            in_bounds_spec(*self, coord) <==> r is Some,
            r matches Some(v) ==> self.gives(coord, v),
    {
        if self.in_bounds(coord) {
            Some(self.get(coord))
        } else {
            None
        }
    }
}

/// 3D grid write by value.
pub trait Grid3Set: Grid3 {
    /// `after` is a grid that writing `v` at `c` into this one may produce.
    spec fn sets(&self, c: Coord3, v: Self::Item, after: Self) -> bool;

    fn set(&mut self, coord: Coord3, elem: Self::Item)
        requires
            old(self).wf(),
            in_bounds_spec(*old(self), coord),
        ensures
            final(self).wf(),
            old(self).sets(coord, elem, *final(self)),
            final(self).x_limits() == old(self).x_limits(),
            final(self).y_limits() == old(self).y_limits(),
            final(self).z_limits() == old(self).z_limits(),
    ;

    fn try_set(&mut self, coord: Coord3, elem: Self::Item) -> (r: Result<(), Self::Item>)
        requires
            old(self).wf(),
        ensures
            final(self).wf(),
            in_bounds_spec(*old(self), coord) <==> r is Ok,
            in_bounds_spec(*old(self), coord) ==> old(self).sets(coord, elem, *final(self)),
            !in_bounds_spec(*old(self), coord) ==> r == Err::<(), Self::Item>(elem) && *final(self) == *old(self),
            final(self).x_limits() == old(self).x_limits(),
            final(self).y_limits() == old(self).y_limits(),
            final(self).z_limits() == old(self).z_limits(),
    {
        if self.in_bounds(coord) {
            self.set(coord, elem);
            Ok(())
        } else {
            Err(elem)
        }
    }
}

/// 3D grid read by reference.
pub trait Grid3Ref: Grid3 {
    /// `v` is the element that a shared reference at `c` may point to.
    spec fn refers(&self, c: Coord3, v: Self::Item) -> bool;

    fn idx(&self, coord: Coord3) -> (r: &Self::Item)
        requires
            self.wf(),
            in_bounds_spec(*self, coord),
        ensures
            self.refers(coord, *r),
    ;

    fn try_idx(&self, coord: Coord3) -> (r: Option<&Self::Item>)
        requires
            self.wf(),
        ensures
            in_bounds_spec(*self, coord) <==> r is Some,
            r matches Some(v) ==> self.refers(coord, *v),
    {
        if self.in_bounds(coord) {
            Some(self.idx(coord))
        } else {
            None
        }
    }
}

/// 3D grid write by reference.
pub trait Grid3Mut: Grid3 {
    /// Lending the element at `c` may show `cur` and, once the borrow holding `fin`
    /// ends, leave the grid as `after`.
    spec fn lends(&self, c: Coord3, cur: Self::Item, fin: Self::Item, after: Self) -> bool;

    fn midx(&mut self, coord: Coord3) -> (r: &mut Self::Item)
        requires
            old(self).wf(),
            in_bounds_spec(*old(self), coord),
        ensures
            final(self).wf(),
            old(self).lends(coord, *r, *final(r), *final(self)),
            final(self).x_limits() == old(self).x_limits(),
            final(self).y_limits() == old(self).y_limits(),
            final(self).z_limits() == old(self).z_limits(),
    ;

    fn try_midx(&mut self, coord: Coord3) -> (r: Option<&mut Self::Item>)
        requires
            old(self).wf(),
        ensures
            final(self).wf(),
            in_bounds_spec(*old(self), coord) <==> r is Some,
            r matches Some(v) ==> old(self).lends(coord, *v, *final(v), *final(self)),
            r is None ==> *final(self) == *old(self),
            final(self).x_limits() == old(self).x_limits(),
            final(self).y_limits() == old(self).y_limits(),
            final(self).z_limits() == old(self).z_limits(),
    {
        if self.in_bounds(coord) {
            Some(self.midx(coord))
        } else {
            None
        }
    }
}

/// The view combinators, invoked on any grid.
///
/// Each takes the grid by value and returns a view that owns it.
pub trait Grid3Combinators: Grid3 {
    /// Element by-value mapping.
    fn map<F, T>(self, func: F) -> (r: Grid3Map<Self, F, T>)
        where
            F: Fn(Self::Item) -> T,
        requires
            self.wf(),
            forall|v: Self::Item| #[trigger] func.requires((v,)),
        ensures
            r.wf(),
            r.inner() == self,
            r.func() == func,
    {
        Grid3Map::new(self, func)
    }

    /// Element by-value+coord mapping.
    fn enumap<F, T>(self, func: F) -> (r: Grid3EnuMap<Self, F, T>)
        where
            F: Fn(Coord3, Self::Item) -> T,
        requires
            self.wf(),
            forall|c: Coord3, v: Self::Item| #[trigger] func.requires((c, v)),
        ensures
            r.wf(),
            r.inner() == self,
            r.func() == func,
    {
        Grid3EnuMap::new(self, func)
    }

    /// Flattening a grid of grids with a regular stride.
    fn flatten(self, stride: Coord3) -> (r: Grid3Flat<Self>)
        where
            Self: Grid3Ref,
            Self::Item: Grid3,
            Self::XBound: RangeBoundsTimes,
            Self::YBound: RangeBoundsTimes,
            Self::ZBound: RangeBoundsTimes,
        requires
            self.wf(),
            stride.x > 0,
            stride.y > 0,
            stride.z > 0,
            scale_fits_axis(self.x_limits(), stride.x as int),
            scale_fits_axis(self.y_limits(), stride.y as int),
            scale_fits_axis(self.z_limits(), stride.z as int),
            Grid3Flat::<Self>::elements_cover(self, stride),
        ensures
            r.wf(),
            r.doublegrid() == self,
            r.stride_spec() == stride,
    {
        Grid3Flat::new(self, stride)
    }

    /// <0, 0> in this grid becomes new_origin in resultant grid.
    fn new_origin(self, new_origin: Coord3) -> (r: Grid3NewOrigin<Self>)
        where
            Self::XBound: RangeBoundsPlus,
            Self::YBound: RangeBoundsPlus,
            Self::ZBound: RangeBoundsPlus,
        requires
            self.wf(),
            two_sided_or_open(self.x_limits()),
            two_sided_or_open(self.y_limits()),
            two_sided_or_open(self.z_limits()),
            shift_fits_axis(self.x_limits(), new_origin.x as int),
            shift_fits_axis(self.y_limits(), new_origin.y as int),
            shift_fits_axis(self.z_limits(), new_origin.z as int),
        ensures
            r.wf(),
            r.inner() == self,
            r.origin() == new_origin,
    {
        Grid3NewOrigin::new(self, new_origin)
    }

    /// Provide function to provide elements at out-of-bounds coordinates.
    ///
    /// This produces an unbounded grid.
    fn oob_handler<F>(self, handler: F) -> (r: Grid3OobHandler<Self, F>)
        where
            F: Fn(Coord3) -> Self::Item,
        requires
            self.wf(),
            forall|c: Coord3| #[trigger] handler.requires((c,)),
        ensures
            r.wf(),
            r.inner() == self,
            r.func() == handler,
    {
        Grid3OobHandler::new(self, handler)
    }

    /// View a sub-box of this grid; the new bounds must lie within the current ones.
    fn subview<X, Y, Z>(self, new_x: X, new_y: Y, new_z: Z) -> (r: Grid3Slice<Self, X, Y, Z>)
        where
            X: AxisBound,
            Y: AxisBound,
            Z: AxisBound,
        requires
            self.wf(),
            narrower(limits(new_x), self.x_limits()),
            narrower(limits(new_y), self.y_limits()),
            narrower(limits(new_z), self.z_limits()),
        ensures
            r.wf(),
            r.inner() == self,
            r.x_limits() == limits(new_x),
            r.y_limits() == limits(new_y),
            r.z_limits() == limits(new_z),
    {
        Grid3Slice::new(self, new_x, new_y, new_z)
    }

    /// View a sub-box of this grid, handing the grid back if the new bounds are not
    /// a subset of the current bounds.
    fn try_subview<X, Y, Z>(self, new_x: X, new_y: Y, new_z: Z) -> (r: Result<
        Grid3Slice<Self, X, Y, Z>,
        Self,
    >)
        where
            X: AxisBound,
            Y: AxisBound,
            Z: AxisBound,
        requires
            self.wf(),
        ensures
            r is Ok <==> narrower(limits(new_x), self.x_limits()) && narrower(
                limits(new_y),
                self.y_limits(),
            ) && narrower(limits(new_z), self.z_limits()),
            r matches Ok(s) ==> s.wf() && s.inner() == self && s.x_limits() == limits(new_x)
                && s.y_limits() == limits(new_y) && s.z_limits() == limits(new_z),
            r matches Err(g) ==> g == self,
    {
        Grid3Slice::try_new(self, new_x, new_y, new_z)
    }

    /// View a sub-box of this grid, beginning at origin; it must lie within the current
    /// bounds.
    fn subview_0to(self, new_x_len: i32, new_y_len: i32, new_z_len: i32) -> (r: Grid3Slice<
        Self,
        Range0To,
        Range0To,
        Range0To,
    >)
        requires
            self.wf(),
            narrower((Limit::Included(0), Limit::Excluded(new_x_len)), self.x_limits()),
            narrower((Limit::Included(0), Limit::Excluded(new_y_len)), self.y_limits()),
            narrower((Limit::Included(0), Limit::Excluded(new_z_len)), self.z_limits()),
        ensures
            r.wf(),
            r.inner() == self,
            r.x_limits() == (Limit::Included(0), Limit::Excluded(new_x_len)),
            r.y_limits() == (Limit::Included(0), Limit::Excluded(new_y_len)),
            r.z_limits() == (Limit::Included(0), Limit::Excluded(new_z_len)),
    {
        let x = Range0To { end: new_x_len };
        let y = Range0To { end: new_y_len };
        let z = Range0To { end: new_z_len };
        assert(limits(x) == (Limit::Included(0), Limit::Excluded(new_x_len)));
        assert(limits(y) == (Limit::Included(0), Limit::Excluded(new_y_len)));
        assert(limits(z) == (Limit::Included(0), Limit::Excluded(new_z_len)));
        Grid3Slice::new(self, x, y, z)
    }

    /// View a sub-box of this grid, beginning at origin, handing the grid back if it does
    /// not lie within the current bounds.
    fn try_subview_0to(self, new_x_len: i32, new_y_len: i32, new_z_len: i32) -> (r: Result<
        Grid3Slice<Self, Range0To, Range0To, Range0To>,
        Self,
    >)
        requires
            self.wf(),
        ensures
            r is Ok <==> narrower((Limit::Included(0), Limit::Excluded(new_x_len)), self.x_limits())
                && narrower((Limit::Included(0), Limit::Excluded(new_y_len)), self.y_limits())
                && narrower((Limit::Included(0), Limit::Excluded(new_z_len)), self.z_limits()),
            r matches Ok(s) ==> s.wf() && s.inner() == self && s.x_limits() == (
                Limit::Included(0),
                Limit::Excluded(new_x_len),
            ) && s.y_limits() == (Limit::Included(0), Limit::Excluded(new_y_len)) && s.z_limits()
                == (Limit::Included(0), Limit::Excluded(new_z_len)),
            r matches Err(g) ==> g == self,
    {
        let x = Range0To { end: new_x_len };
        let y = Range0To { end: new_y_len };
        let z = Range0To { end: new_z_len };
        assert(limits(x) == (Limit::Included(0), Limit::Excluded(new_x_len)));
        assert(limits(y) == (Limit::Included(0), Limit::Excluded(new_y_len)));
        assert(limits(z) == (Limit::Included(0), Limit::Excluded(new_z_len)));
        Grid3Slice::try_new(self, x, y, z)
    }

    /// View of this grid which wraps around the edges.
    ///
    /// The input grid must be bounded and non-empty in all directions, and the
    /// output grid is completely unbounded.
    fn wrapping(self) -> (r: Grid3Wrapping<Self>)
        where
            Self::XBound: BoundRange,
            Self::YBound: BoundRange,
            Self::ZBound: BoundRange,
        requires
            self.wf(),
            wrappable(self.x_limits()),
            wrappable(self.y_limits()),
            wrappable(self.z_limits()),
        ensures
            r.wf(),
            r.inner() == self,
    {
        Grid3Wrapping::new(self)
    }

    /// Collect a grid's elements into a heap allocation.
    ///
    /// The grid must be bound from 0 to a finite limit.
    fn collect(&self) -> (r: ArrayGrid3<Self::Item>)
        where
            Self: Grid3Get + Grid3Len,
        requires
            self.wf(),
            self.x_limits().1 matches Limit::Excluded(w) && self.y_limits().1 matches Limit::Excluded(
                h,
            ) && self.z_limits().1 matches Limit::Excluded(d) && w >= 0 && h >= 0 && d >= 0 && w * h
                * d <= i32::MAX,
        ensures
            self.x_limits() == (Limit::Included(0), Limit::Excluded(r.width() as i32)),
            self.y_limits() == (Limit::Included(0), Limit::Excluded(r.height() as i32)),
            self.z_limits() == (Limit::Included(0), Limit::Excluded(r.depth() as i32)),
            forall|c: Coord3|
                in_box(r.width(), r.height(), r.depth(), c) ==> self.gives(c, #[trigger] r.at(c)),
    {
        let x_len = self.x_len();
        let y_len = self.y_len();
        let z_len = self.z_len();
        let f = |c: Coord3| -> (e: Self::Item)
            requires
                in_box(x_len as int, y_len as int, z_len as int, c),
            ensures
                self.gives(c, e),
            { self.get(c) };
        ArrayGrid3::new(x_len, y_len, z_len, f)
    }
}

impl<G: Grid3> Grid3Combinators for G {
}

} // verus!
