use grids::grid2::{
    alloc_gen, allocate, array3x3, array3x3_gen, neworigin::Grid2NewOrigin, ref_fn, value_fn,
    ArrayGrid2, Coord, Grid2,
    Grid2Combinators, Grid2Get, Grid2Len, Grid2Mut, Grid2Ref, Grid2Set, Inline3x3Grid,
};
use grids::range::{
    more_strict, AxisBound, BoundRange, Limit, Range0To, RangeBoundsPlus, RangeBoundsTimes,
};

fn xy(x: i32, y: i32) -> Coord {
    Coord::new(x, y)
}

fn numbered(x_len: i32, y_len: i32) -> ArrayGrid2<i32> {
    alloc_gen(x_len, y_len, |c: Coord| c.x * 10 + c.y)
}

#[test]
fn dense_round_trip() {
    let mut g = allocate(4, 3, 0i32);
    g.set(xy(1, 1), 5);
    g.set(xy(2, 1), 7);
    assert_eq!(g.get(xy(2, 1)), 7);
    assert_eq!(g.get(xy(1, 1)), 5);
    g.set(xy(2, 1), 9);
    assert_eq!(g.get(xy(2, 1)), 9);
    assert_eq!(g.get(xy(1, 1)), 5);
    assert_eq!(g.get(xy(0, 0)), 0);
    assert_eq!(g.get(xy(3, 2)), 0);
}

#[test]
fn dense_generator_row_major() {
    let g = numbered(3, 2);
    assert_eq!(g.x_len(), 3);
    assert_eq!(g.y_len(), 2);
    assert_eq!(g.get(xy(2, 1)), 21);
    assert_eq!(*g.idx(xy(1, 0)), 10);
    assert_eq!(g.inner_index(2, 1), Some(5));
    assert_eq!(g.inner_index(0, 1), Some(3));
}

#[test]
fn dense_inner_index_rejects_the_end() {
    let g = numbered(3, 2);
    assert_eq!(g.inner_index(3, 0), None);
    assert_eq!(g.inner_index(0, 2), None);
    assert_eq!(g.inner_index(-1, 0), None);
}

#[test]
fn dense_bounds_rejection() {
    let mut g = numbered(4, 3);
    assert_eq!(g.try_get(xy(-1, 0)), None);
    assert_eq!(g.try_get(xy(4, 0)), None);
    assert_eq!(g.try_get(xy(0, 3)), None);
    assert_eq!(g.try_get(xy(0, -1)), None);
    assert_eq!(g.try_get(xy(3, 2)), Some(32));
    assert_eq!(g.try_set(xy(4, 1), 99), Err(99));
    assert_eq!(g.try_set(xy(1, -1), 98), Err(98));
    for y in 0..3 {
        for x in 0..4 {
            assert_eq!(g.get(xy(x, y)), x * 10 + y);
        }
    }
    assert_eq!(g.try_set(xy(1, 2), 5), Ok(()));
    assert_eq!(g.get(xy(1, 2)), 5);
    assert!(g.try_idx(xy(4, 0)).is_none());
    assert!(g.try_midx(xy(0, 3)).is_none());
}

#[test]
fn dense_mutable_index() {
    let mut g = allocate(2, 2, 1i32);
    *g.midx(xy(1, 0)) += 41;
    assert_eq!(g.get(xy(1, 0)), 42);
    if let Some(r) = g.try_midx(xy(0, 1)) {
        *r = 3;
    }
    assert_eq!(g.get(xy(0, 1)), 3);
    assert_eq!(g.get(xy(1, 1)), 1);
}

#[test]
fn dense_empty_grid() {
    let g = allocate(0, 5, 'a');
    assert_eq!(g.x_len(), 0);
    assert_eq!(g.try_get(xy(0, 0)), None);
}

#[test]
fn inline_generator_and_from() {
    let g = array3x3_gen(|c: Coord| c.x + 3 * c.y);
    assert_eq!(g.get(xy(1, 2)), 7);
    assert_eq!(g.get(xy(2, 0)), 2);
    assert_eq!(g.x_len(), 3);
    assert_eq!(g.try_get(xy(3, 0)), None);
    let h = Inline3x3Grid::from([[1, 2, 3], [4, 5, 6], [7, 8, 9]]);
    assert_eq!(h.get(xy(0, 2)), 3);
    assert_eq!(h.get(xy(2, 0)), 7);
}

#[test]
fn inline_round_trip() {
    let mut g = array3x3(String::from("-"));
    g.set(xy(2, 2), String::from("x"));
    assert_eq!(g.get(xy(2, 2)), "x");
    assert_eq!(g.get(xy(2, 1)), "-");
    assert_eq!(g.try_set(xy(3, 3), String::from("y")), Err(String::from("y")));
}

#[test]
fn value_fn_is_unbounded() {
    let g = value_fn(|c: Coord| c.x * c.y);
    assert_eq!(g.get(xy(-4, 5)), -20);
    assert_eq!(g.try_get(xy(i32::MIN, 1)), Some(i32::MIN));
    assert!(g.in_bounds(xy(i32::MAX, i32::MIN)));
}

#[test]
fn ref_fn_reads_by_reference() {
    let table = [10, 20, 30];
    let g = ref_fn(|c: Coord| &table[(c.x.rem_euclid(3)) as usize]);
    assert_eq!(*g.idx(xy(4, 0)), 20);
    assert_eq!(g.get(xy(-1, 7)), 30);
}

#[test]
fn wrap_periodic() {
    let w = numbered(3, 2).wrapping();
    for y in 0..2 {
        for x in 0..3 {
            for k in -3..4 {
                for j in -3..4 {
                    assert_eq!(w.get(xy(x + 3 * k, y + 2 * j)), w.get(xy(x, y)));
                }
            }
        }
    }
    assert_eq!(w.get(xy(-1, -1)), 21);
    assert_eq!(w.get(xy(i32::MIN, i32::MAX)), w.get(xy(i32::MIN.rem_euclid(3), 1)));
    assert_eq!(w.wrap_coord(xy(-4, 5)), xy(2, 1));
}

#[test]
fn wrap_inclusive_bounds() {
    let inner = value_fn(|c: Coord| c.x * 100 + c.y).subview(1..=3, 0..=1);
    let w = inner.wrapping();
    assert_eq!(w.get(xy(4, 0)), 100);
    assert_eq!(w.get(xy(0, 2)), 300);
    assert_eq!(w.wrap_coord(xy(-2, -1)), xy(1, 1));
}

#[test]
fn wrap_writes_through() {
    let mut w = allocate(2, 2, 0i32).wrapping();
    w.set(xy(-1, 5), 4);
    assert_eq!(w.get(xy(1, 1)), 4);
    assert_eq!(w.get(xy(3, -1)), 4);
}

#[test]
fn flatten_split() {
    let outer = alloc_gen(2, 3, |o: Coord| {
        alloc_gen(3, 2, move |i: Coord| o.x * 1000 + o.y * 100 + i.x * 10 + i.y)
    });
    let f = outer.flatten(xy(3, 2));
    assert_eq!(f.stride(), xy(3, 2));
    for b in 0..3 {
        for a in 0..2 {
            for s in 0..2 {
                for r in 0..3 {
                    assert_eq!(f.get(xy(a * 3 + r, b * 2 + s)), a * 1000 + b * 100 + r * 10 + s);
                }
            }
        }
    }
    assert_eq!(f.try_get(xy(6, 0)), None);
    assert_eq!(*f.idx(xy(5, 5)), 1000 + 200 + 21);
}

#[test]
fn flatten_negative_coordinates() {
    let g = alloc_gen(1, 1, |_: Coord| numbered(3, 3));
    let flat = g.flatten(xy(3, 3));
    assert_eq!(flat.outer_inner_coord(xy(-1, -4)), (xy(-1, -2), xy(2, 2)));
    assert_eq!(flat.outer_inner_coord(xy(7, 3)), (xy(2, 1), xy(1, 0)));
    assert_eq!(flat.outer_inner_coord(xy(-3, 0)), (xy(-1, 0), xy(0, 0)));
}

#[test]
fn origin_shift() {
    let g = numbered(3, 2).new_origin(xy(5, -2));
    assert_eq!(Grid2NewOrigin::new_origin(&g), xy(5, -2));
    assert_eq!(g.get(xy(5, -2)), 0);
    assert_eq!(g.get(xy(7, -1)), 21);
    assert_eq!(g.x_bound(), 5..8);
    assert_eq!(g.y_bound(), -2..0);
    assert_eq!(g.try_get(xy(4, -2)), None);
    assert_eq!(g.try_get(xy(8, -2)), None);
    assert_eq!(g.adjust_coord(xy(6, 0)), xy(1, 2));
}

#[test]
fn origin_shift_writes_through() {
    let mut g = allocate(2, 2, 0i32).new_origin(xy(-1, -1));
    g.set(xy(0, 0), 8);
    assert_eq!(g.get(xy(0, 0)), 8);
    assert_eq!(g.get(xy(-1, -1)), 0);
}

#[test]
fn origin_shift_unbounded() {
    let g = value_fn(|c: Coord| c.x - c.y).new_origin(xy(10, 20));
    assert_eq!(g.get(xy(10, 20)), 0);
    assert_eq!(g.get(xy(0, 0)), 10);
}

#[test]
fn slice_strictness() {
    let g = numbered(5, 5);
    let g = match g.try_subview(-1..5, 0..5) {
        Ok(_) => panic!("a wider bound must be rejected"),
        Err(g) => g,
    };
    assert_eq!(g.get(xy(4, 4)), 44);
    let g = match g.try_subview(0..5, 0..6) {
        Ok(_) => panic!("a wider bound must be rejected"),
        Err(g) => g,
    };
    let s = match g.try_subview(1..4, 0..5) {
        Ok(s) => s,
        Err(_) => panic!("a narrower bound must be accepted"),
    };
    assert_eq!(s.try_get(xy(4, 0)), None);
    assert_eq!(s.try_get(xy(0, 0)), None);
    assert_eq!(s.get(xy(3, 2)), 32);
    assert_eq!(s.x_bound(), 1..4);
}

#[test]
fn slice_from_zero() {
    let mut s = numbered(5, 4).subview_0to(2, 3);
    assert_eq!(s.x_len(), 2);
    assert_eq!(s.y_len(), 3);
    assert_eq!(s.try_get(xy(2, 0)), None);
    assert_eq!(s.try_set(xy(0, 3), 1), Err(1));
    s.set(xy(1, 2), 0);
    assert_eq!(s.get(xy(1, 2)), 0);
    assert!(numbered(5, 4).try_subview_0to(6, 1).is_err());
    assert!(numbered(5, 4).try_subview_0to(5, 4).is_ok());
}

#[test]
fn map_purity() {
    let g = numbered(3, 3);
    let m = numbered(3, 3).map(|v: i32| v * 2 + 1);
    assert_eq!(m.x_bound(), g.x_bound());
    assert_eq!(m.y_bound(), g.y_bound());
    for y in 0..3 {
        for x in 0..3 {
            assert_eq!(m.get(xy(x, y)), g.get(xy(x, y)) * 2 + 1);
        }
    }
    assert_eq!(m.try_get(xy(3, 0)), None);
    assert_eq!(m.x_len(), 3);
}

#[test]
fn enumap_sees_coordinates() {
    let m = allocate(2, 2, 1i32).enumap(|c: Coord, v: i32| v + c.x * 10 + c.y * 100);
    assert_eq!(m.get(xy(1, 1)), 111);
    assert_eq!(m.get(xy(0, 0)), 1);
    assert_eq!(m.y_len(), 2);
}

#[test]
fn oob_handler_fallback() {
    let g = numbered(2, 2).oob_handler(|c: Coord| -(c.x + c.y));
    assert_eq!(g.get(xy(1, 1)), 11);
    assert_eq!(g.get(xy(2, 0)), -2);
    assert_eq!(g.get(xy(-5, -5)), 10);
    assert!(g.in_bounds(xy(-100, 100)));
}

#[test]
fn collect_materializes() {
    let g = value_fn(|c: Coord| c.x + c.y).subview_0to(3, 2).collect();
    assert_eq!(g.x_len(), 3);
    assert_eq!(g.y_len(), 2);
    assert_eq!(g.get(xy(2, 1)), 3);
    assert_eq!(g.inner_index(2, 1), Some(5));
}

#[test]
fn chained_views() {
    let g = numbered(4, 4).subview(1..3, 1..3).new_origin(xy(-1, -1)).wrapping().map(|v: i32| v + 1);
    assert_eq!(g.get(xy(0, 0)), 12);
    assert_eq!(g.get(xy(1, 0)), 22);
    assert_eq!(g.get(xy(2, 2)), 12);
}

#[test]
fn bounds_more_strict() {
    assert!(more_strict(&(1..4), &Range0To { end: 5 }));
    assert!(!more_strict(&(-1..5), &Range0To { end: 5 }));
    assert!(!more_strict(&(0..6), &Range0To { end: 5 }));
    assert!(more_strict(&(0..=4), &Range0To { end: 5 }));
    assert!(!more_strict(&(0..=5), &Range0To { end: 5 }));
    assert!(more_strict(&(3..4), &(..)));
    assert!(!more_strict(&(..), &(3..4)));
    assert!(more_strict(&(..), &(..)));
}

#[test]
fn limits_of_bounds() {
    assert_eq!((2..=6).end_bound(), Limit::Included(6));
    assert_eq!((2..6).end_bound(), Limit::Excluded(6));
    assert_eq!(Range0To { end: 4 }.start_bound(), Limit::Included(0));
    assert_eq!((..).start_bound(), Limit::Unbounded);
    assert!(grids::range::contains(&(2..6), 5));
    assert!(!grids::range::contains(&(2..6), 6));
    assert!(grids::range::contains(&(2..=6), 6));
}

#[test]
fn bound_arithmetic() {
    assert_eq!(Range0To { end: 5 }.times(3), Range0To { end: 15 });
    assert_eq!((2..5).times(-2), -4..-10);
    assert_eq!((2..=5).times(2), 4..=10);
    assert_eq!(Range0To { end: 5 }.plus(3), 3..8);
    assert_eq!((2..5).plus(-2), 0..3);
    assert_eq!((2..=5).plus(1), 3..=6);
    assert_eq!((2..=5).lower_inclusive(), 2);
    assert_eq!((2..=5).upper_exclusive(), 6);
    assert_eq!((2..5).upper_exclusive(), 5);
    assert_eq!(Range0To { end: 7 }.upper_exclusive(), 7);
    assert_eq!(Range0To { end: 7 }.lower_inclusive(), 0);
}

#[test]
fn elevation_through_pointers() {
    let g = numbered(3, 3);
    let r = &g;
    assert_eq!(r.get(xy(2, 2)), 22);
    assert_eq!(r.x_len(), 3);
    let shifted = r.new_origin(xy(1, 1));
    assert_eq!(shifted.get(xy(1, 1)), 0);
    let mut b = Box::new(numbered(2, 2));
    b.set(xy(1, 1), -1);
    assert_eq!(b.get(xy(1, 1)), -1);
    assert_eq!(b.try_set(xy(2, 2), 3), Err(3));
    let m = b.map(|v: i32| v * 3);
    assert_eq!(m.get(xy(1, 1)), -3);
}

#[test]
fn reader_writer_shares_state() {
    let mut g = grids::grid2::reader_writer(
        vec![1, 2, 3],
        |c: Coord, v: &Vec<i32>| &v[c.x.rem_euclid(3) as usize],
        |c: Coord, v: &mut Vec<i32>| &mut v[c.x.rem_euclid(3) as usize],
    );
    assert_eq!(g.get(xy(4, 0)), 2);
    g.set(xy(-1, 9), 30);
    assert_eq!(g.get(xy(2, 0)), 30);
    *g.midx(xy(0, 0)) += 10;
    assert_eq!(*g.idx(xy(3, 3)), 11);
}

#[test]
fn mut_fn_writes_where_pointed() {
    let mut g = grids::grid2::mut_fn(|_: Coord| Box::leak(Box::new(0i32)));
    g.set(xy(1, 2), 4);
    *g.midx(xy(0, 0)) = 5;
    assert_eq!(g.try_midx(xy(i32::MIN, i32::MAX)).map(|r| *r), Some(0));
}
