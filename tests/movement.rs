use sand_sim::{
    next_cell, next_generation, CellPosition, OccupancySnapshot, TieBreaker, WorldBounds,
};

fn small_world() -> WorldBounds {
    WorldBounds::new(-5, 5, -5, 5)
}

fn mobile(x: isize, y: isize) -> CellPosition {
    CellPosition { x, y, static_cell: false }
}

fn fixed(x: isize, y: isize) -> CellPosition {
    CellPosition { x, y, static_cell: true }
}

#[test]
fn single_cell_falls_to_floor() {
    let bounds = small_world();
    let mut coins = TieBreaker::from_seed(7);
    let mut cells = vec![mobile(0, 5)];
    next_generation(&mut cells, &bounds, &mut coins);
    assert_eq!(cells[0], mobile(0, 4));
    for _ in 1..10 {
        next_generation(&mut cells, &bounds, &mut coins);
    }
    assert_eq!((cells[0].x, cells[0].y), (0, -5));
    next_generation(&mut cells, &bounds, &mut coins);
    assert_eq!(cells[0], fixed(0, -5));
    next_generation(&mut cells, &bounds, &mut coins);
    assert_eq!(cells[0], fixed(0, -5));
}

#[test]
fn blocked_below_moves_to_a_diagonal() {
    let bounds = small_world();
    let mut seen_right = false;
    let mut seen_left = false;
    for seed in 0..64u64 {
        let mut coins = TieBreaker::from_seed(seed);
        let mut cells = vec![fixed(0, -5), mobile(0, -4)];
        next_generation(&mut cells, &bounds, &mut coins);
        assert_eq!(cells[0], fixed(0, -5));
        let c = cells[1];
        assert!(c == mobile(1, -5) || c == mobile(-1, -5), "{:?}", c);
        seen_right |= c.x == 1;
        seen_left |= c.x == -1;
    }
    assert!(seen_right && seen_left);
}

#[test]
fn gravity_takes_precedence_over_diagonals() {
    let bounds = WorldBounds::default();
    let mut coins = TieBreaker::from_seed(1);
    let mut cells = vec![fixed(1, 2), fixed(-1, 2), mobile(0, 3)];
    for _ in 0..20 {
        let mut again = cells.clone();
        next_generation(&mut again, &bounds, &mut coins);
        assert_eq!(again[2], mobile(0, 2));
    }
}

#[test]
fn only_free_diagonal_is_taken() {
    let bounds = WorldBounds::default();
    let mut coins = TieBreaker::from_seed(3);
    let mut right = vec![fixed(0, 0), fixed(-1, 0), mobile(0, 1)];
    next_generation(&mut right, &bounds, &mut coins);
    assert_eq!(right[2], mobile(1, 0));
    let mut left = vec![fixed(0, 0), fixed(1, 0), mobile(0, 1)];
    next_generation(&mut left, &bounds, &mut coins);
    assert_eq!(left[2], mobile(-1, 0));
}

#[test]
fn fully_blocked_cell_settles_in_place() {
    let bounds = WorldBounds::default();
    let mut coins = TieBreaker::from_seed(3);
    let mut cells = vec![fixed(0, 0), fixed(1, 0), fixed(-1, 0), mobile(0, 1)];
    next_generation(&mut cells, &bounds, &mut coins);
    assert_eq!(cells[3], fixed(0, 1));
}

#[test]
fn edge_columns_settle_in_place() {
    let bounds = small_world();
    let mut coins = TieBreaker::from_seed(3);
    let mut cells = vec![mobile(5, 3), mobile(-5, 3), mobile(0, -5)];
    next_generation(&mut cells, &bounds, &mut coins);
    assert_eq!(cells, vec![fixed(5, 3), fixed(-5, 3), fixed(0, -5)]);
}

#[test]
fn mobile_cells_do_not_block_each_other() {
    let bounds = WorldBounds::default();
    let mut coins = TieBreaker::from_seed(5);
    let mut cells = vec![mobile(0, 3), mobile(0, 2)];
    next_generation(&mut cells, &bounds, &mut coins);
    assert_eq!(cells, vec![mobile(0, 2), mobile(0, 1)]);
}

#[test]
fn decisions_use_the_snapshot_before_the_tick() {
    let bounds = WorldBounds::default();
    let mut coins = TieBreaker::from_seed(5);
    // The lower cell settles this tick; the upper one still sees a free cell below.
    let mut cells = vec![fixed(0, 0), fixed(1, 0), fixed(-1, 0), mobile(0, 1), mobile(0, 2)];
    next_generation(&mut cells, &bounds, &mut coins);
    assert_eq!(cells[3], fixed(0, 1));
    assert_eq!(cells[4], mobile(0, 1));
}

#[test]
fn settled_cells_never_move_again() {
    let bounds = small_world();
    let mut coins = TieBreaker::from_seed(11);
    let mut cells = vec![mobile(0, 5), mobile(1, 5), mobile(-1, 4), mobile(0, 0), fixed(3, 3)];
    let mut settled: Vec<Option<CellPosition>> = vec![None; cells.len()];
    for _ in 0..30 {
        next_generation(&mut cells, &bounds, &mut coins);
        for (i, c) in cells.iter().enumerate() {
            if let Some(s) = settled[i] {
                assert_eq!(*c, s);
            } else if c.static_cell {
                settled[i] = Some(*c);
            }
        }
    }
    assert!(settled.iter().all(|s| s.is_some()));
}

#[test]
fn cells_stay_inside_the_world() {
    let bounds = small_world();
    let mut coins = TieBreaker::from_seed(99);
    let mut cells = Vec::new();
    for x in -5..=5isize {
        for y in -5..=5isize {
            if (x + y) % 3 == 0 {
                cells.push(CellPosition { x, y, static_cell: y == -5 });
            }
        }
    }
    for _ in 0..40 {
        next_generation(&mut cells, &bounds, &mut coins);
        for c in &cells {
            assert!(-5 <= c.x && c.x <= 5 && -5 <= c.y && c.y <= 5, "{:?}", c);
        }
    }
}

#[test]
fn repeated_static_coordinate_is_reported_and_left() {
    let bounds = WorldBounds::default();
    let mut coins = TieBreaker::from_seed(2);
    let mut cells = vec![fixed(2, 2), fixed(2, 2), mobile(2, 2), mobile(4, 4)];
    let anomalies = next_generation(&mut cells, &bounds, &mut coins);
    assert_eq!(anomalies, vec![true, true, true, false]);
    assert_eq!(cells[0], fixed(2, 2));
    assert_eq!(cells[1], fixed(2, 2));
    assert_eq!(cells[2], mobile(2, 2));
    assert_eq!(cells[3], mobile(4, 3));
}

#[test]
fn snapshot_lists_static_cells_only() {
    let cells = vec![fixed(1, 1), mobile(2, 2), fixed(3, 3), fixed(3, 3)];
    let snapshot = OccupancySnapshot::of_static(&cells);
    assert!(snapshot.is_occupied(1, 1));
    assert!(!snapshot.is_occupied(2, 2));
    assert!(snapshot.is_occupied(3, 3));
    assert!(!snapshot.is_occupied(0, 0));
    assert!(!snapshot.is_repeated(1, 1));
    assert!(snapshot.is_repeated(3, 3));
}

#[test]
fn next_cell_uses_the_given_side() {
    let cells = vec![fixed(0, 0)];
    let snapshot = OccupancySnapshot::of_static(&cells);
    let bounds = WorldBounds::default();
    assert_eq!(next_cell(mobile(0, 1), &snapshot, &bounds, true), mobile(1, 0));
    assert_eq!(next_cell(mobile(0, 1), &snapshot, &bounds, false), mobile(-1, 0));
    assert_eq!(next_cell(fixed(0, 1), &snapshot, &bounds, true), fixed(0, 1));
}

#[test]
fn tie_break_is_close_to_even() {
    let mut coins = TieBreaker::from_seed(2024);
    let trials = 20_000;
    let mut right = 0;
    for _ in 0..trials {
        if coins.go_right() {
            right += 1;
        }
    }
    let ratio = right as f64 / trials as f64;
    assert!((0.48..=0.52).contains(&ratio), "{}", ratio);
}

#[test]
fn tie_break_through_ticks_is_close_to_even() {
    let bounds = WorldBounds::default();
    let mut coins = TieBreaker::from_seed(77);
    let trials = 4_000;
    let mut right = 0;
    for _ in 0..trials {
        let mut cells = vec![fixed(0, 0), mobile(0, 1)];
        next_generation(&mut cells, &bounds, &mut coins);
        if cells[1].x == 1 {
            right += 1;
        }
    }
    let ratio = right as f64 / trials as f64;
    assert!((0.46..=0.54).contains(&ratio), "{}", ratio);
}

#[test]
fn same_seed_same_choices() {
    let mut a = TieBreaker::from_seed(42);
    let mut b = TieBreaker::from_seed(42);
    for _ in 0..100 {
        assert_eq!(a.go_right(), b.go_right());
    }
}
