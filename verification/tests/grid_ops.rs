use game_of_life::grid::Grid;

fn alive_count(g: &Grid) -> usize {
    let mut count = 0;
    let side = g.n + 2;
    for x in 0..side {
        for y in 0..side {
            if g.get(x, y) {
                count += 1;
            }
        }
    }
    count
}

#[test]
fn new_grid_is_all_dead_with_border() {
    let g = Grid::new(16);
    assert_eq!(g.n, 16);
    assert_eq!(g.cells.len(), 18);
    for row in &g.cells {
        assert_eq!(row.len(), 18);
    }
    assert_eq!(alive_count(&g), 0);
}

#[test]
fn toggle_flips_one_cell() {
    let mut g = Grid::new(4);
    g.toggle(2, 3);
    assert!(g.get(2, 3));
    assert_eq!(alive_count(&g), 1);
}

#[test]
fn toggle_twice_restores_the_grid() {
    let mut g = Grid::new(4);
    g.toggle(1, 1);
    g.toggle(5, 0);
    let before = g.snapshot();
    g.toggle(2, 3);
    g.toggle(2, 3);
    for x in 0..6 {
        for y in 0..6 {
            assert_eq!(g.get(x, y), before.get(x, y));
        }
    }
}

#[test]
fn toggle_out_of_bounds_is_a_no_op() {
    let mut g = Grid::new(4);
    g.toggle(3, 3);
    g.toggle(6, 3);
    g.toggle(3, 6);
    g.toggle(100, 100);
    assert!(g.get(3, 3));
    assert_eq!(alive_count(&g), 1);
}

#[test]
fn clear_kills_every_cell_and_keeps_dimensions() {
    let mut g = Grid::new(5);
    g.toggle(0, 0);
    g.toggle(3, 4);
    g.toggle(6, 6);
    g.clear_grid();
    assert_eq!(g.n, 5);
    assert_eq!(g.cells.len(), 7);
    for row in &g.cells {
        assert_eq!(row.len(), 7);
    }
    assert_eq!(alive_count(&g), 0);
}

#[test]
fn snapshot_copies_the_matrix() {
    let mut g = Grid::new(3);
    g.toggle(1, 2);
    g.toggle(4, 4);
    let s = g.snapshot();
    assert_eq!(s.n, g.n);
    for x in 0..5 {
        for y in 0..5 {
            assert_eq!(s.get(x, y), g.get(x, y));
        }
    }
    // A snapshot is a copy, not a view: mutating the original leaves it alone.
    g.toggle(1, 2);
    assert!(s.get(1, 2));
    assert!(!g.get(1, 2));
}
