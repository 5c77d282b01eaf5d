use game_of_life::cell::{transition, Cell};
use game_of_life::grid::live_neighbor_count;
use game_of_life::universe::{static_height, static_width, Universe, SIZE};

fn alive_set(u: &Universe) -> Vec<(u32, u32)> {
    let w = u.width();
    let mut out = Vec::new();
    for (i, c) in u.get_cells().iter().enumerate() {
        if *c == Cell::Alive {
            out.push((i as u32 / w, i as u32 % w));
        }
    }
    out
}

fn sorted(mut v: Vec<(u32, u32)>) -> Vec<(u32, u32)> {
    v.sort();
    v
}

#[test]
fn transition_table_alive() {
    let expected = [
        Cell::Dead,
        Cell::Dead,
        Cell::Alive,
        Cell::Alive,
        Cell::Dead,
        Cell::Dead,
        Cell::Dead,
        Cell::Dead,
        Cell::Dead,
    ];
    for n in 0..9u8 {
        assert_eq!(transition(Cell::Alive, n), expected[n as usize], "alive with {}", n);
    }
}

#[test]
fn transition_table_dead() {
    let expected = [
        Cell::Dead,
        Cell::Dead,
        Cell::Dead,
        Cell::Alive,
        Cell::Dead,
        Cell::Dead,
        Cell::Dead,
        Cell::Dead,
        Cell::Dead,
    ];
    for n in 0..9u8 {
        assert_eq!(transition(Cell::Dead, n), expected[n as usize], "dead with {}", n);
    }
}

#[test]
fn cell_toggle_and_weight() {
    let mut c = Cell::Dead;
    c.toggle();
    assert_eq!(c, Cell::Alive);
    assert_eq!(c.as_u8(), 1);
    c.toggle();
    assert_eq!(c, Cell::Dead);
    assert_eq!(c.as_u8(), 0);
}

#[test]
fn neighbors_wrap_on_three_by_three() {
    let mut u = Universe::new(3, 3);
    u.set_cells_alive(&[(0, 0)]);
    assert_eq!(u.live_neighbor_count(2, 2), 1);
    assert_eq!(u.live_neighbor_count(0, 1), 1);
    assert_eq!(u.live_neighbor_count(1, 0), 1);
    assert_eq!(u.live_neighbor_count(0, 0), 0);
}

#[test]
fn neighbors_not_adjacent_under_wrap() {
    // On a 4x4 torus, (2, 2) is two steps away from (0, 0) on both axes.
    let mut u = Universe::new(4, 4);
    u.set_cells_alive(&[(0, 0)]);
    assert_eq!(u.live_neighbor_count(2, 2), 0);
    assert_eq!(u.live_neighbor_count(3, 3), 1);
    assert_eq!(u.live_neighbor_count(1, 1), 1);
}

#[test]
fn neighbors_on_a_plain_vector() {
    let mut cells = vec![Cell::Dead; 9];
    cells[0] = Cell::Alive;
    cells[4] = Cell::Alive;
    assert_eq!(live_neighbor_count(&cells, 3, 3, 2, 2), 2);
    assert_eq!(live_neighbor_count(&cells, 3, 3, 1, 1), 1);
}

#[test]
fn full_torus_counts_eight() {
    let mut u = Universe::new(3, 3);
    u.reset_random(&[true; 9]);
    assert_eq!(u.live_neighbor_count(1, 1), 8);
    assert_eq!(u.live_neighbor_count(0, 2), 8);
}

#[test]
fn lone_cell_dies_and_nothing_is_born() {
    let mut u = Universe::new(5, 5);
    u.set_cells_alive(&[(2, 2)]);
    u.tick();
    assert!(u.get_cells().iter().all(|c| *c == Cell::Dead));
}

#[test]
fn blinker_uses_only_the_previous_generation() {
    let mut u = Universe::new(5, 5);
    u.set_cells_alive(&[(2, 1), (2, 2), (2, 3)]);
    u.tick();
    assert_eq!(sorted(alive_set(&u)), vec![(1, 2), (2, 2), (3, 2)]);
    u.tick();
    assert_eq!(sorted(alive_set(&u)), vec![(2, 1), (2, 2), (2, 3)]);
}

#[test]
fn glider_moves_one_diagonal_step_in_four_ticks() {
    let mut u = Universe::new(8, 8);
    u.set_cells_alive(&[(1, 2), (2, 3), (3, 1), (3, 2), (3, 3)]);
    for _ in 0..4 {
        u.tick();
    }
    assert_eq!(sorted(alive_set(&u)), vec![(2, 3), (3, 4), (4, 2), (4, 3), (4, 4)]);
}

#[test]
fn glider_wraps_around_the_edges() {
    let mut u = Universe::new(6, 6);
    u.set_cells_alive(&[(3, 4), (4, 5), (5, 3), (5, 4), (5, 5)]);
    for _ in 0..4 {
        u.tick();
    }
    assert_eq!(sorted(alive_set(&u)), vec![(0, 0), (0, 4), (0, 5), (4, 5), (5, 0)]);
}

#[test]
fn tick_rate_advances_several_generations() {
    let mut u = Universe::new(5, 5);
    u.set_tick_rate(2);
    assert_eq!(u.tick_rate(), 2);
    u.set_cells_alive(&[(2, 1), (2, 2), (2, 3)]);
    u.tick();
    assert_eq!(sorted(alive_set(&u)), vec![(2, 1), (2, 2), (2, 3)]);
    u.set_tick_rate(3);
    u.tick();
    assert_eq!(sorted(alive_set(&u)), vec![(1, 2), (2, 2), (3, 2)]);
}

#[test]
fn reset_dead_mirrors_both_buffers() {
    let mut u = Universe::new(4, 4);
    u.reset_grid();
    u.reset_dead();
    assert!(u.get_cells().iter().all(|c| *c == Cell::Dead));
    u.tick();
    assert!(u.get_cells().iter().all(|c| *c == Cell::Dead));
}

#[test]
fn reset_grid_then_ticks_match_a_fresh_grid() {
    let mut u = Universe::new(7, 2);
    u.reset_grid();
    let first: Vec<Cell> = u.get_cells().to_vec();
    u.tick();
    u.tick();
    let mut fresh = Universe::new(7, 2);
    let alive: Vec<(u32, u32)> = first
        .iter()
        .enumerate()
        .filter(|(_, c)| **c == Cell::Alive)
        .map(|(i, _)| (i as u32 / 7, i as u32 % 7))
        .collect();
    fresh.set_cells_alive(&alive);
    fresh.tick();
    fresh.tick();
    assert_eq!(u.get_cells(), fresh.get_cells());
}

#[test]
fn reset_random_follows_the_draws() {
    let mut u = Universe::new(3, 2);
    let draws = [true, false, false, true, true, false];
    u.reset_random(&draws);
    assert_eq!(
        u.get_cells(),
        &[Cell::Alive, Cell::Dead, Cell::Dead, Cell::Alive, Cell::Alive, Cell::Dead]
    );
}

#[test]
fn reset_random_all_dead_then_tick_stays_dead() {
    let mut u = Universe::new(3, 3);
    u.set_cells_alive(&[(0, 0), (1, 1)]);
    u.reset_random(&[false; 9]);
    u.tick();
    assert!(u.get_cells().iter().all(|c| *c == Cell::Dead));
}

#[test]
fn set_width_clears_the_grid() {
    let mut u = Universe::new(4, 4);
    u.reset_grid();
    u.set_width(6);
    assert_eq!(u.width(), 6);
    assert_eq!(u.height(), 4);
    assert_eq!(u.get_cells().len(), 24);
    assert!(u.get_cells().iter().all(|c| *c == Cell::Dead));
    u.tick();
    assert!(u.get_cells().iter().all(|c| *c == Cell::Dead));
}

#[test]
fn set_height_clears_the_grid() {
    let mut u = Universe::new(4, 4);
    u.set_cells_alive(&[(1, 1), (1, 2), (2, 1), (2, 2)]);
    u.set_height(3);
    assert_eq!(u.width(), 4);
    assert_eq!(u.height(), 3);
    assert_eq!(u.get_cells().len(), 12);
    assert!(u.get_cells().iter().all(|c| *c == Cell::Dead));
}

#[test]
fn toggle_twice_restores_the_cell() {
    let mut u = Universe::new(4, 4);
    u.reset_grid();
    let before: Vec<Cell> = u.get_cells().to_vec();
    u.toggle_cell(1, 3);
    assert_ne!(u.get_cells(), &before[..]);
    assert_eq!(u.get_cells()[7], Cell::Dead);
    u.toggle_cell(1, 3);
    assert_eq!(u.get_cells(), &before[..]);
}

#[test]
fn toggle_then_tick_does_not_keep_the_toggle() {
    let mut u = Universe::new(5, 5);
    u.toggle_cell(2, 2);
    assert_eq!(u.get_cells()[12], Cell::Alive);
    u.tick();
    assert_eq!(u.get_cells()[12], Cell::Dead);
}

#[test]
fn stripe_pattern_on_fourteen_cells() {
    let mut u = Universe::new(7, 2);
    u.reset_grid();
    let a = Cell::Alive;
    let d = Cell::Dead;
    assert_eq!(u.get_cells(), &[a, d, a, d, a, d, a, a, a, d, a, d, a, d]);
}

#[test]
fn reset_is_the_stripe_pattern() {
    let mut u = Universe::new(5, 5);
    u.reset();
    for (i, c) in u.get_cells().iter().enumerate() {
        let expected = if i % 2 == 0 || i % 7 == 0 { Cell::Alive } else { Cell::Dead };
        assert_eq!(*c, expected, "index {}", i);
    }
}

#[test]
fn set_cells_alive_marks_only_listed_cells() {
    let mut u = Universe::new(4, 3);
    u.set_cells_alive(&[(0, 3), (2, 0), (0, 3)]);
    assert_eq!(sorted(alive_set(&u)), vec![(0, 3), (2, 0)]);
}

#[test]
fn new_universe_is_dead_with_rate_one() {
    let u = Universe::new(SIZE, SIZE);
    assert_eq!(u.width(), 64);
    assert_eq!(u.height(), 64);
    assert_eq!(u.tick_rate(), 1);
    assert_eq!(u.get_cells().len(), 64 * 64);
    assert!(u.get_cells().iter().all(|c| *c == Cell::Dead));
}

#[test]
fn static_dimensions_are_the_fixed_size() {
    assert_eq!(static_width(), 64);
    assert_eq!(static_height(), 64);
}
