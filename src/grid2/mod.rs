//! Two-dimensional data grid.

pub mod elevate;
pub mod heap;
pub mod inline3x3;
pub mod kolmo;
pub mod kolmoref;
pub mod kolmomut;
pub mod kolmorw;
pub mod wrapping;
pub mod neworigin;
pub mod slice;
pub mod flatten;
pub mod map;
pub mod enumap;
pub mod oobhandler;

use vstd::prelude::*;
use crate::range::{
    contains, limits, limits_contain, narrower, AxisBound, BoundRange, Limit, Range0To,
    RangeBoundsPlus, RangeBoundsTimes,
};
use enumap::Grid2EnuMap;
use inline3x3::in_square;
use flatten::{scale_fits_axis, Grid2Flat};
use map::Grid2Map;
use neworigin::{shift_fits_axis, two_sided_or_open, Grid2NewOrigin};
use oobhandler::Grid2OobHandler;
use slice::Grid2Slice;
use wrapping::{wrappable, Grid2Wrapping};

pub use heap::ArrayGrid2;
pub use inline3x3::Inline3x3Grid;
pub use kolmo::KolmoGrid2;
pub use kolmoref::KolmoRefGrid2;
pub use kolmomut::KolmoMutGrid2;
pub use kolmorw::KolmoRwGrid2;

verus! {

/// Allocate a grid on the heap, every cell a clone of `startval`.
pub fn allocate<T: Clone>(x_len: i32, y_len: i32, startval: T) -> (r: ArrayGrid2<T>)
    requires
        x_len >= 0,
        y_len >= 0,
        x_len * y_len <= i32::MAX,
    ensures
        r.width() == x_len,
        r.height() == y_len,
        forall|c: Coord|
            0 <= c.x < x_len && 0 <= c.y < y_len ==> cloned(startval, #[trigger] r.at(c)),
{
    ArrayGrid2::broadcast(x_len, y_len, startval)
}

/// Allocate a grid on the heap, populate with a function called once per cell.
pub fn alloc_gen<T, F: Fn(Coord) -> T>(x_len: i32, y_len: i32, generator: F) -> (r: ArrayGrid2<T>)
    requires
        x_len >= 0,
        y_len >= 0,
        x_len * y_len <= i32::MAX,
        forall|c: Coord| 0 <= c.x < x_len && 0 <= c.y < y_len ==> generator.requires((c,)),
    ensures
        r.width() == x_len,
        r.height() == y_len,
        forall|c: Coord|
            0 <= c.x < x_len && 0 <= c.y < y_len ==> generator.ensures((c,), #[trigger] r.at(c)),
{
    ArrayGrid2::new(x_len, y_len, generator)
}

/// Inline 3x3 array grid, every cell a clone of `startval`.
pub fn array3x3<T: Clone>(startval: T) -> (r: Inline3x3Grid<T>)
    ensures
        forall|c: Coord| in_square(c) ==> cloned(startval, #[trigger] r.at(c)),
{
    Inline3x3Grid::broadcast(startval)
}

/// Inline 3x3 array grid, populate with a function called once per cell.
pub fn array3x3_gen<T, F: Fn(Coord) -> T>(generator: F) -> (r: Inline3x3Grid<T>)
    requires
        forall|c: Coord| in_square(c) ==> #[trigger] generator.requires((c,)),
    ensures
        forall|c: Coord| in_square(c) ==> generator.ensures((c,), #[trigger] r.at(c)),
{
    Inline3x3Grid::new(generator)
}

/// Represent a coord -> Item function as a grid.
pub fn value_fn<T, F: Fn(Coord) -> T>(f: F) -> (r: KolmoGrid2<F, T>)
    requires
        forall|c: Coord| #[trigger] f.requires((c,)),
    ensures
        r.wf(),
        r.func() == f,
{
    KolmoGrid2::new(f)
}

/// Represent a coord -> &Item function as a grid.
pub fn ref_fn<'a, T: 'a, F: Fn(Coord) -> &'a T>(f: F) -> (r: KolmoRefGrid2<'a, F, T>)
    requires
        forall|c: Coord| #[trigger] f.requires((c,)),
    ensures
        r.wf(),
        r.func() == f,
{
    KolmoRefGrid2::new(f)
}

/// Represent a coord -> &mut Item function as a grid.
pub fn mut_fn<'a, T: 'a, F: Fn(Coord) -> &'a mut T>(f: F) -> (r: KolmoMutGrid2<'a, F, T>)
    requires
        forall|c: Coord| #[trigger] f.requires((c,)),
    ensures
        r.wf(),
        r.func() == f,
{
    KolmoMutGrid2::new(f)
}

/// Read/write through closures.
///
/// This grid owns a *referent* value, and contains a *reader* and
/// *writer* function which immutably and mutably (respectively)
/// borrow the elements from the referent.
pub fn reader_writer<R, T, Fr, Fw>(referent: R, reader: Fr, writer: Fw) -> (r: KolmoRwGrid2<
    R,
    T,
    Fr,
    Fw,
>) where Fr: Fn(Coord, &R) -> &T, Fw: Fn(Coord, &mut R) -> &mut T
    requires
        forall|c: Coord, s: &R| #[trigger] reader.requires((c, s)),
        forall|c: Coord, s: &mut R| #[trigger] writer.requires((c, s)),
    ensures
        r.wf(),
        r.referent() == referent,
        r.reader() == reader,
        r.writer() == writer,
{
    KolmoRwGrid2::new(referent, reader, writer)
}

/// A grid coordinate.
#[derive(Clone, Copy, Debug, PartialEq, Eq, Hash, Structural)]
pub struct Coord {
    pub x: i32,
    pub y: i32,
}

impl Coord {
    pub fn new(x: i32, y: i32) -> (r: Coord)
        ensures
            r.x == x,
            r.y == y,
    {
        Coord { x, y }
    }
}

/// Whether `c` lies in both axis bounds of `g`.
pub open spec fn in_bounds_spec<G: Grid2>(g: G, c: Coord) -> bool {
    &&& limits_contain(g.x_limits().0, g.x_limits().1, c.x as int)
    &&& limits_contain(g.y_limits().0, g.y_limits().1, c.y as int)
}

/// Top-level trait for 2D grids.
pub trait Grid2: Sized {
    type Item;

    type XBound: AxisBound;

    type YBound: AxisBound;

    /// The grid's internal invariant, which every access needs and every write keeps.
    spec fn wf(&self) -> bool;

    /// Lower and upper limit of the legal `x` values.
    spec fn x_limits(&self) -> (Limit, Limit);

    /// Lower and upper limit of the legal `y` values.
    spec fn y_limits(&self) -> (Limit, Limit);

    fn x_bound(&self) -> (r: Self::XBound)
        requires
            self.wf(),
        ensures
            limits(r) == self.x_limits(),
    ;

    fn y_bound(&self) -> (r: Self::YBound)
        requires
            self.wf(),
        ensures
            limits(r) == self.y_limits(),
    ;

    fn in_bounds(&self, coord: Coord) -> (r: bool)
        requires
            self.wf(),
        ensures
            r == (limits_contain(self.x_limits().0, self.x_limits().1, coord.x as int)
                && limits_contain(self.y_limits().0, self.y_limits().1, coord.y as int)),
    {
        contains(&self.x_bound(), coord.x) && contains(&self.y_bound(), coord.y)
    }
}

/// 2D grid bounded from 0 to a finite number.
pub trait Grid2Len: Grid2<XBound = Range0To, YBound = Range0To> {
    fn x_len(&self) -> (r: i32)
        requires
            self.wf(),
        ensures
            self.x_limits() == (Limit::Included(0), Limit::Excluded(r)),
    {
        let b = self.x_bound();
        assert(limits(b) == (Limit::Included(0), Limit::Excluded(b.end)));
        b.end
    }

    fn y_len(&self) -> (r: i32)
        requires
            self.wf(),
        ensures
            self.y_limits() == (Limit::Included(0), Limit::Excluded(r)),
    {
        let b = self.y_bound();
        assert(limits(b) == (Limit::Included(0), Limit::Excluded(b.end)));
        b.end
    }
}

/// 2D grid read by value.
pub trait Grid2Get: Grid2 {
    /// `v` is a value that a read at `c` may return.
    spec fn gives(&self, c: Coord, v: Self::Item) -> bool;

    fn get(&self, coord: Coord) -> (r: Self::Item)
        requires
            self.wf(),
            in_bounds_spec(*self, coord),
        ensures
            self.gives(coord, r),
    ;

    fn try_get(&self, coord: Coord) -> (r: Option<Self::Item>)
        requires
            self.wf(),
        ensures
            in_bounds_spec(*self, coord) <==> r is Some,
            r matches Some(v) ==> self.gives(coord, v),
    {
        if self.in_bounds(coord) {
            Some(self.get(coord))
        } else {
            None
        }
    }
}

/// 2D grid write by value.
pub trait Grid2Set: Grid2 {
    /// `after` is a grid that writing `v` at `c` into this one may produce.
    spec fn sets(&self, c: Coord, v: Self::Item, after: Self) -> bool;

    fn set(&mut self, coord: Coord, elem: Self::Item)
        requires
            old(self).wf(),
            in_bounds_spec(*old(self), coord),
        ensures
            final(self).wf(),
            old(self).sets(coord, elem, *final(self)),
            final(self).x_limits() == old(self).x_limits(),
            final(self).y_limits() == old(self).y_limits(),
    ;

    fn try_set(&mut self, coord: Coord, elem: Self::Item) -> (r: Result<(), Self::Item>)
        requires
            old(self).wf(),
        ensures
            final(self).wf(),
            in_bounds_spec(*old(self), coord) <==> r is Ok,
            in_bounds_spec(*old(self), coord) ==> old(self).sets(coord, elem, *final(self)),
            !in_bounds_spec(*old(self), coord) ==> r == Err::<(), Self::Item>(elem) && *final(self) == *old(self),
            final(self).x_limits() == old(self).x_limits(),
            final(self).y_limits() == old(self).y_limits(),
    {
        if self.in_bounds(coord) {
            self.set(coord, elem);
            Ok(())
        } else {
            Err(elem)
        }
    }
}

/// 2D grid read by reference.
pub trait Grid2Ref: Grid2 {
    /// `v` is the element that a shared reference at `c` may point to.
    spec fn refers(&self, c: Coord, v: Self::Item) -> bool;

    fn idx(&self, coord: Coord) -> (r: &Self::Item)
        requires
            self.wf(),
            in_bounds_spec(*self, coord),
        ensures
            self.refers(coord, *r),
    ;

    fn try_idx(&self, coord: Coord) -> (r: Option<&Self::Item>)
        requires
            self.wf(),
        ensures
            in_bounds_spec(*self, coord) <==> r is Some,
            r matches Some(v) ==> self.refers(coord, *v),
    {
        if self.in_bounds(coord) {
            Some(self.idx(coord))
        } else {
            None
        }
    }
}

/// 2D grid write by reference.
pub trait Grid2Mut: Grid2 {
    /// Lending the element at `c` may show `cur` and, once the borrow holding `fin`
    /// ends, leave the grid as `after`.
    spec fn lends(&self, c: Coord, cur: Self::Item, fin: Self::Item, after: Self) -> bool;

    fn midx(&mut self, coord: Coord) -> (r: &mut Self::Item)
        requires
            old(self).wf(),
            in_bounds_spec(*old(self), coord),
        ensures
            final(self).wf(),
            old(self).lends(coord, *r, *final(r), *final(self)),
            final(self).x_limits() == old(self).x_limits(),
            final(self).y_limits() == old(self).y_limits(),
    ;

    fn try_midx(&mut self, coord: Coord) -> (r: Option<&mut Self::Item>)
        requires
            old(self).wf(),
        ensures
            final(self).wf(),
            in_bounds_spec(*old(self), coord) <==> r is Some,
            r matches Some(v) ==> old(self).lends(coord, *v, *final(v), *final(self)),
            r is None ==> *final(self) == *old(self),
            final(self).x_limits() == old(self).x_limits(),
            final(self).y_limits() == old(self).y_limits(),
    {
        if self.in_bounds(coord) {
            Some(self.midx(coord))
        } else {
            None
        }
    }
}

/// The view combinators, invoked on any grid.
///
/// Each takes the grid by value and returns a view that owns it.
pub trait Grid2Combinators: Grid2 {
    /// Element by-value mapping.
    fn map<F, T>(self, func: F) -> (r: Grid2Map<Self, F, T>)
        where
            F: Fn(Self::Item) -> T,
        requires
            self.wf(),
            forall|v: Self::Item| #[trigger] func.requires((v,)),
        ensures
            r.wf(),
            r.inner() == self,
            r.func() == func,
    {
        Grid2Map::new(self, func)
    }

    /// Element by-value+coord mapping.
    fn enumap<F, T>(self, func: F) -> (r: Grid2EnuMap<Self, F, T>)
        where
            F: Fn(Coord, Self::Item) -> T,
        requires
            self.wf(),
            forall|c: Coord, v: Self::Item| #[trigger] func.requires((c, v)),
        ensures
            r.wf(),
            r.inner() == self,
            r.func() == func,
    {
        Grid2EnuMap::new(self, func)
    }

    /// Flattening a grid of grids with a regular stride.
    fn flatten(self, stride: Coord) -> (r: Grid2Flat<Self>)
        where
            Self: Grid2Ref,
            Self::Item: Grid2,
            Self::XBound: RangeBoundsTimes,
            Self::YBound: RangeBoundsTimes,
        requires
            self.wf(),
            stride.x > 0,
            stride.y > 0,
            scale_fits_axis(self.x_limits(), stride.x as int),
            scale_fits_axis(self.y_limits(), stride.y as int),
            Grid2Flat::<Self>::elements_cover(self, stride),
        ensures
            r.wf(),
            r.doublegrid() == self,
            r.stride_spec() == stride,
    {
        Grid2Flat::new(self, stride)
    }

    /// <0, 0> in this grid becomes new_origin in resultant grid.
    fn new_origin(self, new_origin: Coord) -> (r: Grid2NewOrigin<Self>)
        where
            Self::XBound: RangeBoundsPlus,
            Self::YBound: RangeBoundsPlus,
        requires
            self.wf(),
            two_sided_or_open(self.x_limits()),
            two_sided_or_open(self.y_limits()),
            shift_fits_axis(self.x_limits(), new_origin.x as int),
            shift_fits_axis(self.y_limits(), new_origin.y as int),
        ensures
            r.wf(),
            r.inner() == self,
            r.origin() == new_origin,
    {
        Grid2NewOrigin::new(self, new_origin)
    }

    /// Provide function to provide elements at out-of-bounds coordinates.
    ///
    /// This produces an unbounded grid.
    fn oob_handler<F>(self, handler: F) -> (r: Grid2OobHandler<Self, F>)
        where
            F: Fn(Coord) -> Self::Item,
        requires
            self.wf(),
            forall|c: Coord| #[trigger] handler.requires((c,)),
        ensures
            r.wf(),
            r.inner() == self,
            r.func() == handler,
    {
        Grid2OobHandler::new(self, handler)
    }

    /// View a sub-rectangle of this grid; the new bounds must lie within the current ones.
    fn subview<X, Y>(self, new_x: X, new_y: Y) -> (r: Grid2Slice<Self, X, Y>)
        where
            X: AxisBound,
            Y: AxisBound,
        requires
            self.wf(),
            narrower(limits(new_x), self.x_limits()),
            narrower(limits(new_y), self.y_limits()),
        ensures
            r.wf(),
            r.inner() == self,
            r.x_limits() == limits(new_x),
            r.y_limits() == limits(new_y),
    {
        Grid2Slice::new(self, new_x, new_y)
    }

    /// View a sub-rectangle of this grid, handing the grid back if the new bounds are not
    /// a subset of the current bounds.
    fn try_subview<X, Y>(self, new_x: X, new_y: Y) -> (r: Result<Grid2Slice<Self, X, Y>, Self>)
        where
            X: AxisBound,
            Y: AxisBound,
        requires
            self.wf(),
        ensures
            r is Ok <==> narrower(limits(new_x), self.x_limits()) && narrower(
                limits(new_y),
                self.y_limits(),
            ),
            r matches Ok(s) ==> s.wf() && s.inner() == self && s.x_limits() == limits(new_x)
                && s.y_limits() == limits(new_y),
            r matches Err(g) ==> g == self,
    {
        Grid2Slice::try_new(self, new_x, new_y)
    }

    /// View a sub-rectangle of this grid, beginning at origin; it must lie within the
    /// current bounds.
    fn subview_0to(self, new_x_len: i32, new_y_len: i32) -> (r: Grid2Slice<Self, Range0To, Range0To>)
        requires
            self.wf(),
            narrower((Limit::Included(0), Limit::Excluded(new_x_len)), self.x_limits()),
            narrower((Limit::Included(0), Limit::Excluded(new_y_len)), self.y_limits()),
        ensures
            r.wf(),
            r.inner() == self,
            r.x_limits() == (Limit::Included(0), Limit::Excluded(new_x_len)),
            r.y_limits() == (Limit::Included(0), Limit::Excluded(new_y_len)),
    {
        let x = Range0To { end: new_x_len };
        let y = Range0To { end: new_y_len };
        assert(limits(x) == (Limit::Included(0), Limit::Excluded(new_x_len)));
        assert(limits(y) == (Limit::Included(0), Limit::Excluded(new_y_len)));
        Grid2Slice::new(self, x, y)
    }

    /// View a sub-rectangle of this grid, beginning at origin, handing the grid back if it
    /// does not lie within the current bounds.
    fn try_subview_0to(self, new_x_len: i32, new_y_len: i32) -> (r: Result<
        Grid2Slice<Self, Range0To, Range0To>,
        Self,
    >)
        requires
            self.wf(),
        ensures
            r is Ok <==> narrower((Limit::Included(0), Limit::Excluded(new_x_len)), self.x_limits())
                && narrower((Limit::Included(0), Limit::Excluded(new_y_len)), self.y_limits()),
            r matches Ok(s) ==> s.wf() && s.inner() == self && s.x_limits() == (
                Limit::Included(0),
                Limit::Excluded(new_x_len),
            ) && s.y_limits() == (Limit::Included(0), Limit::Excluded(new_y_len)),
            r matches Err(g) ==> g == self,
    {
        let x = Range0To { end: new_x_len };
        let y = Range0To { end: new_y_len };
        assert(limits(x) == (Limit::Included(0), Limit::Excluded(new_x_len)));
        assert(limits(y) == (Limit::Included(0), Limit::Excluded(new_y_len)));
        Grid2Slice::try_new(self, x, y)
    }

    /// View of this grid which wraps around the edges.
    ///
    /// The input grid must be bounded and non-empty in all directions, and the
    /// output grid is completely unbounded.
    fn wrapping(self) -> (r: Grid2Wrapping<Self>)
        where
            Self::XBound: BoundRange,
            Self::YBound: BoundRange,
        requires
            self.wf(),
            wrappable(self.x_limits()),
            wrappable(self.y_limits()),
        ensures
            r.wf(),
            r.inner() == self,
    {
        Grid2Wrapping::new(self)
    }

    /// Collect a grid's elements into a heap allocation.
    ///
    /// The grid must be bound from 0 to a finite limit.
    fn collect(&self) -> (r: ArrayGrid2<Self::Item>)
        where
            Self: Grid2Get + Grid2Len,
        requires
            self.wf(),
            self.x_limits().1 matches Limit::Excluded(w) && self.y_limits().1 matches Limit::Excluded(
                h,
            ) && w >= 0 && h >= 0 && w * h <= i32::MAX,
        ensures
            self.x_limits() == (Limit::Included(0), Limit::Excluded(r.width() as i32)),
            self.y_limits() == (Limit::Included(0), Limit::Excluded(r.height() as i32)),
            forall|c: Coord|
                0 <= c.x < r.width() && 0 <= c.y < r.height() ==> self.gives(c, #[trigger] r.at(c)),
    {
        let x_len = self.x_len();
        let y_len = self.y_len();
        let f = |c: Coord| -> (e: Self::Item)
            requires
                0 <= c.x < x_len,
                0 <= c.y < y_len,
            ensures
                self.gives(c, e),
            { self.get(c) };
        ArrayGrid2::new(x_len, y_len, f)
    }
}

impl<G: Grid2> Grid2Combinators for G {
}

} // verus!
