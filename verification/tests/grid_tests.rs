use std::cell::Cell;

use grid::grid::Grid;
use grid::vector::constants;
use grid::vector::Vector;

fn v(x: i64, y: i64) -> Vector {
    Vector::new(x, y)
}

#[test]
fn dimensions_after_construction() {
    let g: Grid<u8> = Grid::new(8, 10, 9);
    assert_eq!(g.width(), 8);
    assert_eq!(g.height(), 10);
    assert_eq!(g.dim(), v(8, 10));
}

#[test]
fn dimensions_never_change() {
    let mut g: Grid<u8> = Grid::new(4, 3, 0);
    g.set(v(1, 1), 5);
    *g.index_mut(v(0, 0)) = 7;
    if let Some(c) = g.get_mut(v(2, 2)) {
        *c = 9;
    }
    assert_eq!(g.width(), 4);
    assert_eq!(g.height(), 3);
    assert_eq!(g.dim(), v(4, 3));
}

#[test]
fn fill_clone_every_cell() {
    let g: Grid<u8> = Grid::new(8, 10, 1);
    let mut it = g.positions();
    while let Some(p) = it.next() {
        assert_eq!(g.get(p), Some(&1));
    }
}

#[test]
fn fill_default_every_cell() {
    let g: Grid<u8> = Grid::default(9, 3);
    assert_eq!(g.get(v(5, 1)), Some(&0));
    assert_eq!(g.get(v(6, 2)), Some(&0));
    let mut it = g.positions();
    while let Some(p) = it.next() {
        assert_eq!(g.get(p), Some(&0));
    }
}

#[test]
fn fill_thunk_called_once_per_cell() {
    let calls = Cell::new(0u64);
    let g: Grid<u8> = Grid::from_simple_fn(8, 10, || {
        calls.set(calls.get() + 1);
        2
    });
    assert_eq!(calls.get(), 80);
    assert_eq!(g.get(v(5, 3)), Some(&2));
    assert_eq!(g.get(v(1, 8)), Some(&2));
}

#[test]
fn fill_from_position() {
    let calls = Cell::new(0u64);
    let g: Grid<i64> = Grid::from_fn(8, 10, |p: Vector| {
        calls.set(calls.get() + 1);
        p.x + p.y
    });
    assert_eq!(calls.get(), 80);
    assert_eq!(*g.index(v(5, 3)), 8);
    assert_eq!(*g.index(v(7, 9)), 16);
    let mut it = g.positions();
    while let Some(p) = it.next() {
        assert_eq!(g.get(p), Some(&(p.x + p.y)));
    }
}

#[test]
fn get_and_set() {
    let mut g: Grid<u8> = Grid::new(8, 10, 5);
    assert_eq!(g.set(v(2, 3), 7), Some(5));
    assert_eq!(g.set(v(9, 12), 1), None);
    assert_eq!(g.set(v(-4, -7), 3), None);
    assert_eq!(*g.index(v(2, 3)), 7);
    assert_eq!(g.get(v(2, 3)), Some(&7));
    assert_eq!(g.get(v(8, 6)), None);
    assert_eq!(g.get(v(4, 10)), None);
    assert_eq!(g.get(v(-2, 3)), None);
}

#[test]
fn set_roundtrip() {
    let mut g: Grid<u8> = Grid::new(3, 3, 0);
    let prev = g.set(v(1, 2), 42);
    assert_eq!(prev, Some(0));
    assert_eq!(g.get(v(1, 2)), Some(&42));
    assert_eq!(g.set(v(1, 2), 43), Some(42));
    assert_eq!(g.get(v(0, 0)), Some(&0));
}

#[test]
fn get_agrees_with_index() {
    let g: Grid<i64> = Grid::from_fn(4, 5, |p: Vector| p.x * 10 + p.y);
    let mut it = g.positions();
    while let Some(p) = it.next() {
        assert_eq!(g.get(p), Some(g.index(p)));
    }
}

#[test]
fn get_mut_writes_through() {
    let mut g: Grid<u8> = Grid::new(8, 10, 4);
    *g.get_mut(v(5, 3)).unwrap() = 2;
    assert_eq!(g.get_mut(v(5, 3)), Some(&mut 2));
    assert_eq!(g.get_mut(v(0, 0)), Some(&mut 4));
    assert_eq!(g.get_mut(v(1, 10)), None);
    assert_eq!(g.get_mut(v(9, 7)), None);
    assert_eq!(g.get_mut(v(4, -1)), None);
}

#[test]
fn index_mut_writes_through() {
    let mut g: Grid<u8> = Grid::new(5, 6, 3);
    *g.index_mut(v(1, 0)) = 1;
    *g.index_mut(v(3, 5)) = 2;
    assert_eq!(*g.index(v(3, 5)), 2);
    assert_eq!(*g.index(v(1, 0)), 1);
    assert_eq!(*g.index(v(2, 4)), 3);
}

#[test]
fn negative_positions_out_of_bounds() {
    let g: Grid<u8> = Grid::new(15, 14, 11);
    assert!(g.in_bounds(v(0, 0)));
    assert!(g.in_bounds(v(10, 4)));
    assert!(!g.in_bounds(v(15, 2)));
    assert!(!g.in_bounds(v(3, 17)));
    assert!(!g.in_bounds(v(-1, 5)));
    assert!(!g.in_bounds(v(-15, -14)));
    assert_eq!(g.get(v(-1, 5)), None);
}

#[test]
fn row_major_iteration_order() {
    let mut g: Grid<i64> = Grid::new(3, 2, 0);
    g.set(v(1, 0), 1);
    g.set(v(0, 1), 2);
    let mut seen = Vec::new();
    let mut it = g.into_iter();
    while let Some(x) = it.next() {
        seen.push(x);
    }
    assert_eq!(seen, vec![0, 1, 0, 2, 0, 0]);
}

#[test]
fn positions_in_row_major_order() {
    let g: Grid<u8> = Grid::new(3, 2, 0);
    let mut it = g.positions();
    assert_eq!(it.next(), Some(v(0, 0)));
    assert_eq!(it.next(), Some(v(1, 0)));
    assert_eq!(it.next(), Some(v(2, 0)));
    assert_eq!(it.next(), Some(v(0, 1)));
    assert_eq!(it.next(), Some(v(1, 1)));
    assert_eq!(it.next(), Some(v(2, 1)));
    assert_eq!(it.next(), None);
    assert_eq!(it.next(), None);
}

#[test]
fn iteration_lengths() {
    let g: Grid<u8> = Grid::new(8, 10, 6);
    let mut count = 0u64;
    let mut it = g.iter();
    while let Some(_) = it.next() {
        count += 1;
    }
    assert_eq!(count, 80);

    count = 0;
    let mut it = g.positions();
    while let Some(_) = it.next() {
        count += 1;
    }
    assert_eq!(count, 80);

    count = 0;
    let mut it = g.iter_positions();
    while let Some(_) = it.next() {
        count += 1;
    }
    assert_eq!(count, 80);

    count = 0;
    let mut it = g.into_iter();
    while let Some(_) = it.next() {
        count += 1;
    }
    assert_eq!(count, 80);
}

#[test]
fn positions_zip_values_matches_get() {
    let g: Grid<i64> = Grid::from_fn(8, 10, |p: Vector| p.x * 2 + p.y);
    let mut ps = g.positions();
    let mut vs = g.iter();
    loop {
        match (ps.next(), vs.next()) {
            (Some(p), Some(val)) => {
                assert_eq!(g.get(p), Some(val));
                assert_eq!(*val, p.x * 2 + p.y);
            }
            (None, None) => break,
            _ => panic!("positions and values ended at different steps"),
        }
    }
}

#[test]
fn iter_positions_pairs() {
    let g: Grid<i64> = Grid::from_fn(8, 10, |p: Vector| p.x * 2 + p.y);
    let mut it = g.iter_positions();
    while let Some((p, val)) = it.next() {
        assert_eq!(g.get(p), Some(val));
        assert_eq!(*val, p.x * 2 + p.y);
    }
}

#[test]
fn into_iter_positions_pairs() {
    let g: Grid<u8> = Grid::new(8, 10, 6);
    let mut count = 0u64;
    let mut it = g.into_iter_positions();
    while let Some((p, val)) = it.next() {
        assert!(p.x >= 0 && p.x < 8 && p.y >= 0 && p.y < 10);
        assert_eq!(val, 6);
        count += 1;
    }
    assert_eq!(count, 80);
}

#[test]
fn into_iter_positions_order() {
    let g: Grid<i64> = Grid::from_fn(2, 2, |p: Vector| p.x + 10 * p.y);
    let mut it = g.into_iter_positions();
    assert_eq!(it.next(), Some((v(0, 0), 0)));
    assert_eq!(it.next(), Some((v(1, 0), 1)));
    assert_eq!(it.next(), Some((v(0, 1), 10)));
    assert_eq!(it.next(), Some((v(1, 1), 11)));
    assert_eq!(it.next(), None);
}

#[test]
fn map_preserves_dimensions_and_applies() {
    let a: Grid<u8> = Grid::new(15, 14, 11);
    let b = a.map(|x: &u8| *x + 2);
    assert_eq!(b.dim(), a.dim());
    assert_eq!(*b.index(v(2, 3)), 13);
    let mut it = b.positions();
    while let Some(p) = it.next() {
        assert_eq!(b.get(p), Some(&13));
    }
}

#[test]
fn pos_map_passes_positions() {
    let a: Grid<i64> = Grid::new(5, 6, 3);
    let b = a.pos_map(|p: Vector, x: &i64| *x + p.x);
    assert_eq!(*b.index(v(1, 4)), 4);
    assert_eq!(*b.index(v(3, 0)), 6);
    let c = b.pos_map(|p: Vector, x: &i64| *x + p.y);
    assert_eq!(*c.index(v(1, 4)), 8);
}

#[test]
fn render_pads_to_longest_cell() {
    let mut g: Grid<i64> = Grid::new(2, 2, 9);
    g.set(v(1, 0), 10);
    g.set(v(0, 1), 1);
    g.set(v(1, 1), 100);
    assert_eq!(g.render(), "2x2\n  9, 10\n  1,100");
}

#[test]
fn render_single_digit_cells() {
    let mut g: Grid<i64> = Grid::new(3, 2, 0);
    g.set(v(1, 0), 1);
    g.set(v(0, 1), 2);
    assert_eq!(g.render(), "3x2\n0,1,0\n2,0,0");
}

#[test]
fn render_negative_cells() {
    let mut g: Grid<i64> = Grid::new(2, 1, 5);
    g.set(v(0, 0), -12);
    assert_eq!(g.render(), "2x1\n-12,  5");
}

#[test]
fn clone_preserves_cells() {
    let mut g: Grid<u8> = Grid::new(3, 2, 1);
    g.set(v(2, 1), 9);
    let c = g.clone();
    assert_eq!(c.dim(), g.dim());
    let mut it = g.positions();
    while let Some(p) = it.next() {
        assert_eq!(c.get(p), g.get(p));
    }
    assert!(c == g);
}

#[test]
fn vector_walk_until_out_of_bounds() {
    let g: Grid<u8> = Grid::new(5, 5, 0);
    let mut pos = v(1, 2);
    let offset = constants::east();
    while g.in_bounds(pos) {
        pos = pos.add(offset);
    }
    assert_eq!(pos, v(5, 2));
}
