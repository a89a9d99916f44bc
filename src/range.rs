//! Axis bounds: the set of legal coordinates along one axis.

use vstd::prelude::*;
use std::ops::Range;
use std::ops::RangeFull;
use std::ops::RangeInclusive;

verus! {

/// One end of an axis bound.
#[derive(Clone, Copy, Debug, PartialEq, Eq, Structural)]
pub enum Limit {
    Included(i32),
    Excluded(i32),
    Unbounded,
}

/// Smallest legal value above a lower limit, `None` when unbounded.
pub open spec fn lower_incl(l: Limit) -> Option<int> {
    match l {
        Limit::Included(i) => Some(i as int),
        Limit::Excluded(i) => Some(i + 1),
        Limit::Unbounded => None,
    }
}

/// First illegal value above an upper limit, `None` when unbounded.
pub open spec fn upper_excl(l: Limit) -> Option<int> {
    match l {
        Limit::Included(i) => Some(i + 1),
        Limit::Excluded(i) => Some(i as int),
        Limit::Unbounded => None,
    }
}

/// Whether a limit's endpoint times `n` fits in an `i32`.
pub open spec fn scale_fits(l: Limit, n: int) -> bool {
    match l {
        Limit::Included(i) => i32::MIN <= i * n <= i32::MAX,
        Limit::Excluded(i) => i32::MIN <= i * n <= i32::MAX,
        Limit::Unbounded => true,
    }
}

/// A limit whose endpoint is multiplied by `n`.
pub open spec fn scaled(l: Limit, n: int) -> Limit {
    match l {
        Limit::Included(i) => Limit::Included((i * n) as i32),
        Limit::Excluded(i) => Limit::Excluded((i * n) as i32),
        Limit::Unbounded => Limit::Unbounded,
    }
}

/// Whether a limit's endpoint plus `n` fits in an `i32`.
pub open spec fn shift_fits(l: Limit, n: int) -> bool {
    match l {
        Limit::Included(i) => i32::MIN <= i + n <= i32::MAX,
        Limit::Excluded(i) => i32::MIN <= i + n <= i32::MAX,
        Limit::Unbounded => true,
    }
}

/// A limit whose endpoint is moved by `n`.
pub open spec fn shifted(l: Limit, n: int) -> Limit {
    match l {
        Limit::Included(i) => Limit::Included((i + n) as i32),
        Limit::Excluded(i) => Limit::Excluded((i + n) as i32),
        Limit::Unbounded => Limit::Unbounded,
    }
}

/// Whether `v` lies between a lower limit `s` and an upper limit `e`.
pub open spec fn limits_contain(s: Limit, e: Limit, v: int) -> bool {
    &&& (match lower_incl(s) {
        Some(lo) => lo <= v,
        None => true,
    })
    &&& (match upper_excl(e) {
        Some(hi) => v < hi,
        None => true,
    })
}

/// The set of legal coordinate values along one axis, given by its two limits.
pub trait AxisBound: Sized {
    spec fn start_spec(&self) -> Limit;

    spec fn end_spec(&self) -> Limit;

    fn start_bound(&self) -> (r: Limit)
        ensures
            r == self.start_spec(),
    ;

    fn end_bound(&self) -> (r: Limit)
        ensures
            r == self.end_spec(),
    ;

    /// A copy with the same limits.
    fn duplicate(&self) -> (r: Self)
        ensures
            r.start_spec() == self.start_spec(),
            r.end_spec() == self.end_spec(),
    ;
}

/// The two limits of a bound: its model.
pub open spec fn limits<B: AxisBound>(b: B) -> (Limit, Limit) {
    (b.start_spec(), b.end_spec())
}

/// Whether `v` is a legal value of bound `b`.
pub open spec fn contains_spec<B: AxisBound>(b: B, v: int) -> bool {
    limits_contain(b.start_spec(), b.end_spec(), v)
}

/// Whether `v` is a legal value of bound `b`.
pub fn contains<B: AxisBound>(b: &B, v: i32) -> (r: bool)
    ensures
        r == contains_spec(*b, v as int),
{
    let lower_ok = match b.start_bound() {
        Limit::Included(i) => i <= v,
        Limit::Excluded(i) => i < v,
        Limit::Unbounded => true,
    };
    let upper_ok = match b.end_bound() {
        Limit::Included(i) => v <= i,
        Limit::Excluded(i) => v < i,
        Limit::Unbounded => true,
    };
    lower_ok && upper_ok
}

/// Whether limits `a` admit no value that limits `b` reject: `a`'s lower limit is at least
/// `b`'s and `a`'s upper limit at most `b`'s, an absent limit standing for infinity.
pub open spec fn narrower(a: (Limit, Limit), b: (Limit, Limit)) -> bool {
    &&& (match (lower_incl(a.0), lower_incl(b.0)) {
        (Some(i1), Some(i2)) => i1 >= i2,
        (Some(_), None) => true,
        (None, Some(_)) => false,
        (None, None) => true,
    })
    &&& (match (upper_excl(a.1), upper_excl(b.1)) {
        (Some(i1), Some(i2)) => i1 <= i2,
        (Some(_), None) => true,
        (None, Some(_)) => false,
        (None, None) => true,
    })
}

/// Limits at least as strict as others admit only values the others admit.
pub proof fn lemma_narrower_contains(a: (Limit, Limit), b: (Limit, Limit), v: int)
    requires
        narrower(a, b),
        limits_contain(a.0, a.1, v),
    ensures
        limits_contain(b.0, b.1, v),
{
}

fn lower_inclusive_of(l: Limit) -> (r: Option<i64>)
    ensures
        r matches Some(i) ==> lower_incl(l) == Some(i as int),
        r is None ==> lower_incl(l) is None,
{
    match l {
        Limit::Included(i) => Some(i as i64),
        Limit::Excluded(i) => Some(i as i64 + 1),
        Limit::Unbounded => None,
    }
}

fn upper_exclusive_of(l: Limit) -> (r: Option<i64>)
    ensures
        r matches Some(i) ==> upper_excl(l) == Some(i as int),
        r is None ==> upper_excl(l) is None,
{
    match l {
        Limit::Included(i) => Some(i as i64 + 1),
        Limit::Excluded(i) => Some(i as i64),
        Limit::Unbounded => None,
    }
}

/// Verify that `a` is more strict than (or as strict as) `b`.
pub fn more_strict<A: AxisBound, B: AxisBound>(a: &A, b: &B) -> (r: bool)
    ensures
        r == narrower(limits(*a), limits(*b)),
{
    let lower_ok = match (lower_inclusive_of(a.start_bound()), lower_inclusive_of(b.start_bound())) {
        (Some(i1), Some(i2)) => i1 >= i2,
        (Some(_), None) => true,
        (None, Some(_)) => false,
        (None, None) => true,
    };
    if !lower_ok {
        return false;
    }
    let upper_ok = match (upper_exclusive_of(a.end_bound()), upper_exclusive_of(b.end_bound())) {
        (Some(i1), Some(i2)) => i1 <= i2,
        (Some(_), None) => true,
        (None, Some(_)) => false,
        (None, None) => true,
    };
    if !upper_ok {
        return false;
    }
    true
}

/// A remainder `t` of `a` by `n` that Rust's `%` gives, made non-negative, is the Euclidean
/// remainder.
pub proof fn lemma_rem_fold(a: int, n: int, t: int)
    requires
        n > 0,
        t == if a >= 0 { a % n } else { -((-a) % n) },
    ensures
        0 <= t + n,
        (t + n) % n == a % n,
{
    if a < 0 {
        let q = (-a) / n;
        let r = (-a) % n;
        assert(-a == q * n + r) by (nonlinear_arith)
            requires
                n > 0,
                q == (-a) / n,
                r == (-a) % n,
        ;
        assert(t + n == a + (q + 1) * n) by (nonlinear_arith)
            requires
                t == -r,
                -a == q * n + r,
        ;
        vstd::arithmetic::div_mod::lemma_mod_multiples_vanish(q + 1, a, n);
    } else {
        vstd::arithmetic::div_mod::lemma_mod_multiples_vanish(1, t, n);
        assert(1 * n + t == t + n);
        vstd::arithmetic::div_mod::lemma_mod_twice(a, n);
    }
}

/// Range from 0 to N.
#[derive(Clone, Copy, Debug, PartialEq, Eq, Structural)]
pub struct Range0To {
    pub end: i32,
}

impl AxisBound for Range0To {
    open spec fn start_spec(&self) -> Limit {
        Limit::Included(0)
    }

    open spec fn end_spec(&self) -> Limit {
        Limit::Excluded(self.end)
    }

    fn start_bound(&self) -> (r: Limit) {
        Limit::Included(0)
    }

    fn end_bound(&self) -> (r: Limit) {
        Limit::Excluded(self.end)
    }

    fn duplicate(&self) -> (r: Self) {
        *self
    }
}

impl AxisBound for Range<i32> {
    open spec fn start_spec(&self) -> Limit {
        Limit::Included(self.start)
    }

    open spec fn end_spec(&self) -> Limit {
        Limit::Excluded(self.end)
    }

    fn start_bound(&self) -> (r: Limit) {
        Limit::Included(self.start)
    }

    fn end_bound(&self) -> (r: Limit) {
        Limit::Excluded(self.end)
    }

    fn duplicate(&self) -> (r: Self) {
        Range { start: self.start, end: self.end }
    }
}


/// `std::ops::RangeFull`, the bound of an unbounded axis, carried as an opaque value.
#[verifier::external_type_specification]
#[verifier::external_body]
pub struct ExRangeFull(RangeFull);

/// Relies on `RangeFull`, the unit value that admits every index. Every `RangeFull` has the
/// same limits, so nothing needs to be said of the result.
#[verifier::external_body]
pub(crate) fn full_range() -> RangeFull {
    RangeFull
}

/// Relies on `RangeInclusive::start`: a reference to the range's stored lower bound.
pub assume_specification<Idx>[ RangeInclusive::<Idx>::start ](r: &RangeInclusive<Idx>) -> (ret: &Idx)
    ensures
        *ret == r@.start,
;

/// Relies on `RangeInclusive::end`: a reference to the range's stored upper bound.
pub assume_specification<Idx>[ RangeInclusive::<Idx>::end ](r: &RangeInclusive<Idx>) -> (ret: &Idx)
    ensures
        *ret == r@.end,
;

impl AxisBound for RangeInclusive<i32> {
    open spec fn start_spec(&self) -> Limit {
        Limit::Included(self@.start)
    }

    open spec fn end_spec(&self) -> Limit {
        Limit::Included(self@.end)
    }

    fn start_bound(&self) -> (r: Limit) {
        Limit::Included(*self.start())
    }

    fn end_bound(&self) -> (r: Limit) {
        Limit::Included(*self.end())
    }

    fn duplicate(&self) -> (r: Self) {
        RangeInclusive::new(*self.start(), *self.end())
    }
}

impl AxisBound for RangeFull {
    open spec fn start_spec(&self) -> Limit {
        Limit::Unbounded
    }

    open spec fn end_spec(&self) -> Limit {
        Limit::Unbounded
    }

    fn start_bound(&self) -> (r: Limit) {
        Limit::Unbounded
    }

    fn end_bound(&self) -> (r: Limit) {
        Limit::Unbounded
    }

    fn duplicate(&self) -> (r: Self) {
        full_range()
    }
}

/// Performing multiplication on axis bounds.
pub trait RangeBoundsTimes: AxisBound {
    /// Both endpoints multiplied by `n`.
    fn times(&self, n: i32) -> (r: Self)
        requires
            scale_fits(self.start_spec(), n as int),
            scale_fits(self.end_spec(), n as int),
        ensures
            r.start_spec() == scaled(self.start_spec(), n as int),
            r.end_spec() == scaled(self.end_spec(), n as int),
    ;
}

impl RangeBoundsTimes for Range0To {
    fn times(&self, n: i32) -> (r: Range0To) {
        Range0To { end: self.end * n }
    }
}

impl RangeBoundsTimes for Range<i32> {
    fn times(&self, n: i32) -> (r: Range<i32>) {
        Range { start: self.start * n, end: self.end * n }
    }
}

impl RangeBoundsTimes for RangeInclusive<i32> {
    fn times(&self, n: i32) -> (r: RangeInclusive<i32>) {
        RangeInclusive::new(*self.start() * n, *self.end() * n)
    }
}

impl RangeBoundsTimes for RangeFull {
    fn times(&self, n: i32) -> (r: RangeFull) {
        full_range()
    }
}

/// Performing addition on axis bounds.
pub trait RangeBoundsPlus: AxisBound {
    type Output: AxisBound;

    /// Both endpoints moved by `n`.
    fn plus(&self, n: i32) -> (r: Self::Output)
        requires
            shift_fits(self.start_spec(), n as int),
            shift_fits(self.end_spec(), n as int),
        ensures
            r.start_spec() == shifted(self.start_spec(), n as int),
            r.end_spec() == shifted(self.end_spec(), n as int),
    ;
}

impl RangeBoundsPlus for Range0To {
    type Output = Range<i32>;

    fn plus(&self, n: i32) -> (r: Range<i32>) {
        Range { start: n, end: self.end + n }
    }
}

impl RangeBoundsPlus for Range<i32> {
    type Output = Range<i32>;

    fn plus(&self, n: i32) -> (r: Range<i32>) {
        Range { start: self.start + n, end: self.end + n }
    }
}

impl RangeBoundsPlus for RangeInclusive<i32> {
    type Output = RangeInclusive<i32>;

    fn plus(&self, n: i32) -> (r: RangeInclusive<i32>) {
        RangeInclusive::new(*self.start() + n, *self.end() + n)
    }
}

impl RangeBoundsPlus for RangeFull {
    type Output = RangeFull;

    fn plus(&self, n: i32) -> (r: RangeFull) {
        full_range()
    }
}

/// A range which is not unbounded on either end.
pub trait BoundRange: AxisBound {
    /// Both limits are finite.
    proof fn lemma_finite(&self)
        ensures
            lower_incl(self.start_spec()) is Some,
            upper_excl(self.end_spec()) is Some,
    ;

    fn lower_inclusive(&self) -> (r: i32)
        ensures
            lower_incl(self.start_spec()) == Some(r as int),
    ;

    fn upper_exclusive(&self) -> (r: i32)
        requires
            upper_excl(self.end_spec()) matches Some(u) && u <= i32::MAX,
        ensures
            upper_excl(self.end_spec()) == Some(r as int),
    ;
}

impl BoundRange for Range<i32> {
    proof fn lemma_finite(&self) {
    }

    fn lower_inclusive(&self) -> (r: i32) {
        self.start
    }

    fn upper_exclusive(&self) -> (r: i32) {
        self.end
    }
}

impl BoundRange for RangeInclusive<i32> {
    proof fn lemma_finite(&self) {
    }

    fn lower_inclusive(&self) -> (r: i32) {
        *self.start()
    }

    fn upper_exclusive(&self) -> (r: i32) {
        *self.end() + 1
    }
}

impl BoundRange for Range0To {
    proof fn lemma_finite(&self) {
    }

    fn lower_inclusive(&self) -> (r: i32) {
        0
    }

    fn upper_exclusive(&self) -> (r: i32) {
        self.end
    }
}

} // verus!
