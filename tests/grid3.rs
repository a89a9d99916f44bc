use grids::grid3::{
    alloc_gen, allocate, array3x3x3, array3x3x3_gen, Coord3, Grid3, Grid3Combinators, Grid3Get,
    Grid3Len, Grid3Mut,
    Grid3Ref, Grid3Set, Inline3x3x3Grid,
};

fn xyz(x: i32, y: i32, z: i32) -> Coord3 {
    Coord3::new(x, y, z)
}

#[test]
fn dense3_round_trip() {
    let mut g = allocate(3, 2, 4, 0i32);
    g.set(xyz(2, 1, 3), 7);
    g.set(xyz(0, 0, 0), 1);
    assert_eq!(g.get(xyz(2, 1, 3)), 7);
    assert_eq!(g.get(xyz(0, 0, 0)), 1);
    assert_eq!(g.get(xyz(1, 1, 1)), 0);
    assert_eq!(g.z_len(), 4);
}

#[test]
fn dense3_generator_layer_major() {
    let g = alloc_gen(3, 2, 2, |c: Coord3| c.x + 10 * c.y + 100 * c.z);
    assert_eq!(g.get(xyz(2, 1, 1)), 112);
    assert_eq!(g.inner_index(2, 1, 1), Some(11));
    assert_eq!(g.inner_index(1, 0, 1), Some(7));
    assert_eq!(g.inner_index(3, 0, 0), None);
    assert_eq!(g.inner_index(0, 0, 2), None);
    assert_eq!(*g.idx(xyz(0, 1, 0)), 10);
}

#[test]
fn dense3_bounds_rejection() {
    let mut g = allocate(2, 2, 2, 5u8);
    assert_eq!(g.try_get(xyz(0, 0, 2)), None);
    assert_eq!(g.try_get(xyz(-1, 0, 0)), None);
    assert_eq!(g.try_set(xyz(0, 2, 0), 9), Err(9));
    assert!(g.try_midx(xyz(2, 0, 0)).is_none());
    assert!(g.try_idx(xyz(0, 0, -1)).is_none());
    assert!(g.in_bounds(xyz(1, 1, 1)));
    assert!(!g.in_bounds(xyz(1, 1, 2)));
    assert_eq!(g.get(xyz(1, 1, 1)), 5);
    *g.midx(xyz(1, 0, 1)) = 6;
    assert_eq!(g.get(xyz(1, 0, 1)), 6);
}

#[test]
fn inline3_generator_and_from() {
    let g = array3x3x3_gen(|c: Coord3| c.x + 3 * c.y + 9 * c.z);
    assert_eq!(g.get(xyz(2, 1, 2)), 23);
    assert_eq!(g.try_get(xyz(0, 3, 0)), None);
    assert_eq!(g.x_len(), 3);
    let mut h = array3x3x3(0i64);
    h.set(xyz(1, 2, 0), -4);
    assert_eq!(h.get(xyz(1, 2, 0)), -4);
    assert_eq!(h.get(xyz(0, 2, 1)), 0);
    let a = [[[0, 1, 2], [3, 4, 5], [6, 7, 8]], [[9, 10, 11], [12, 13, 14], [15, 16, 17]], [
        [18, 19, 20],
        [21, 22, 23],
        [24, 25, 26],
    ]];
    let k = Inline3x3x3Grid::from(a);
    assert_eq!(k.get(xyz(1, 2, 0)), 15);
    assert_eq!(k.get(xyz(2, 0, 1)), 19);
}

fn numbered3(x_len: i32, y_len: i32, z_len: i32) -> grids::grid3::ArrayGrid3<i32> {
    alloc_gen(x_len, y_len, z_len, |c: Coord3| c.x * 100 + c.y * 10 + c.z)
}

#[test]
fn wrap3_periodic() {
    let w = numbered3(2, 3, 2).wrapping();
    for z in 0..2 {
        for y in 0..3 {
            for x in 0..2 {
                for k in -2..3 {
                    assert_eq!(w.get(xyz(x + 2 * k, y - 3 * k, z + 2 * k)), w.get(xyz(x, y, z)));
                }
            }
        }
    }
    assert_eq!(w.get(xyz(-1, -1, -1)), 121);
    assert_eq!(w.wrap_coord(xyz(5, -4, 3)), xyz(1, 2, 1));
}

#[test]
fn flatten3_split() {
    let outer = alloc_gen(2, 1, 2, |o: Coord3| {
        alloc_gen(2, 2, 2, move |i: Coord3| o.x * 1000 + o.z * 100 + i.x * 10 + i.y + i.z * 5)
    });
    let f = outer.flatten(xyz(2, 2, 2));
    assert_eq!(f.get(xyz(3, 1, 2)), 1000 + 100 + 10 + 1);
    assert_eq!(f.try_get(xyz(4, 0, 0)), None);
    assert_eq!(f.outer_inner_coord(xyz(-1, -3, 4)), (xyz(-1, -2, 2), xyz(1, 1, 0)));
}

#[test]
fn origin3_shift() {
    let g = numbered3(2, 2, 2).new_origin(xyz(1, -1, 10));
    assert_eq!(g.get(xyz(2, 0, 11)), 111);
    assert_eq!(g.try_get(xyz(0, 0, 10)), None);
    assert_eq!(g.z_bound(), 10..12);
    assert_eq!(g.adjust_coord(xyz(1, -1, 10)), xyz(0, 0, 0));
}

#[test]
fn slice3_strictness() {
    let g = numbered3(3, 3, 3);
    let g = match g.try_subview(0..3, 0..3, -1..3) {
        Ok(_) => panic!("a wider bound must be rejected"),
        Err(g) => g,
    };
    let s = match g.try_subview(1..3, 0..=1, 0..3) {
        Ok(s) => s,
        Err(_) => panic!("a narrower bound must be accepted"),
    };
    assert_eq!(s.try_get(xyz(1, 2, 0)), None);
    assert_eq!(s.get(xyz(2, 1, 2)), 212);
    let t = numbered3(3, 3, 3).subview_0to(1, 2, 3);
    assert_eq!(t.z_len(), 3);
    assert_eq!(t.try_get(xyz(1, 0, 0)), None);
}

#[test]
fn map3_and_collect() {
    let m = numbered3(2, 2, 2).map(|v: i32| v + 1);
    assert_eq!(m.get(xyz(1, 1, 1)), 112);
    let e = numbered3(2, 2, 2).enumap(|c: Coord3, v: i32| v - c.z);
    assert_eq!(e.get(xyz(1, 0, 1)), 100);
    let c = grids::grid3::value_fn(|c: Coord3| c.x + c.y + c.z).subview_0to(2, 2, 2).collect();
    assert_eq!(c.get(xyz(1, 1, 1)), 3);
    assert_eq!(c.inner_index(1, 1, 1), Some(7));
}

#[test]
fn oob3_fallback() {
    let g = numbered3(1, 1, 1).oob_handler(|c: Coord3| c.z);
    assert_eq!(g.get(xyz(0, 0, 0)), 0);
    assert_eq!(g.get(xyz(0, 0, 9)), 9);
}

#[test]
fn function_grids3() {
    let g = grids::grid3::value_fn(|c: Coord3| c.x - c.y + c.z);
    assert_eq!(g.get(xyz(1, 2, 3)), 2);
    assert!(g.in_bounds(xyz(i32::MIN, 0, i32::MAX)));
    let table = [4, 5];
    let r = grids::grid3::ref_fn(|c: Coord3| &table[c.z.rem_euclid(2) as usize]);
    assert_eq!(r.get(xyz(0, 0, -1)), 5);
    let mut rw = grids::grid3::reader_writer(
        [0i32; 4],
        |c: Coord3, a: &[i32; 4]| &a[c.x.rem_euclid(4) as usize],
        |c: Coord3, a: &mut [i32; 4]| &mut a[c.x.rem_euclid(4) as usize],
    );
    rw.set(xyz(5, 0, 0), 8);
    assert_eq!(rw.get(xyz(1, 9, 9)), 8);
    assert_eq!(*rw.idx(xyz(2, 0, 0)), 0);
}

#[test]
fn elevation3_through_pointers() {
    let g = numbered3(2, 2, 2);
    let r = &g;
    assert_eq!(r.get(xyz(1, 0, 1)), 101);
    let mut b = Box::new(numbered3(2, 2, 2));
    b.set(xyz(0, 1, 0), 0);
    assert_eq!(b.get(xyz(0, 1, 0)), 0);
    let shared = std::rc::Rc::new(numbered3(1, 1, 2));
    assert_eq!(shared.get(xyz(0, 0, 1)), 1);
}
