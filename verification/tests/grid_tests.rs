use cellular::cell::{Cell, System};
use cellular::cell_library::conway_cell::ConwayCell;
use cellular::cell_library::sandpile::AbelianSandpileCell;
use cellular::generic_system::GenericSystem;
use cellular::grid::boundary::{Boundary, ConstantBoundary, FreeBoundary, PeriodicBoundary};
use cellular::grid::grid_pos::GridPos;
use cellular::grid::Grid;
use cellular::rng::Pcg32;

#[test]
fn new_empty_fills_both_buffers_with_defaults() {
    let grid: Grid<ConwayCell> = Grid::new_empty(4, 3, Boundary::FreeBoundary(FreeBoundary));
    assert_eq!(grid.width, 4);
    assert_eq!(grid.height, 3);
    assert_eq!(grid.cells.len(), 12);
    assert_eq!(grid.scratch_cells.len(), 12);
    for c in &grid.cells {
        assert_eq!(*c, ConwayCell::default_cell());
    }
    for c in &grid.scratch_cells {
        assert_eq!(*c, ConwayCell::default_cell());
    }
}

#[test]
fn clear_resets_current_buffer_only() {
    let mut grid: Grid<ConwayCell> =
        Grid::new_empty(3, 3, Boundary::PeriodicBoundary(PeriodicBoundary));
    for i in 0..9 {
        grid.cells[i] = ConwayCell { alive: true, heat: 200 };
        grid.scratch_cells[i] = ConwayCell { alive: true, heat: 100 };
    }
    grid.clear();
    for i in 0..9 {
        assert_eq!(grid.cells[i], ConwayCell::default_cell());
        assert_eq!(grid.scratch_cells[i], ConwayCell { alive: true, heat: 100 });
    }
}

#[test]
fn swap_exchanges_buffers_in_place() {
    let mut grid: Grid<ConwayCell> =
        Grid::new_empty(2, 2, Boundary::PeriodicBoundary(PeriodicBoundary));
    grid.cells[0] = ConwayCell { alive: true, heat: 1 };
    grid.scratch_cells[0] = ConwayCell { alive: true, heat: 2 };
    grid.swap();
    assert_eq!(grid.cells[0], ConwayCell { alive: true, heat: 2 });
    assert_eq!(grid.scratch_cells[0], ConwayCell { alive: true, heat: 1 });
}

#[test]
fn set_scratch_then_swap_becomes_visible() {
    let mut grid: Grid<ConwayCell> =
        Grid::new_empty(3, 2, Boundary::PeriodicBoundary(PeriodicBoundary));
    grid.set_scatch_cell_at(GridPos::new(2, 1), ConwayCell { alive: true, heat: 55 });
    assert_eq!(*grid.get_cell_at(GridPos::new(2, 1)), ConwayCell::default_cell());
    grid.swap();
    assert_eq!(
        *grid.get_cell_at(GridPos::new(2, 1)),
        ConwayCell { alive: true, heat: 55 }
    );
}

#[test]
fn grid_idx_and_to_idx_agree_in_range() {
    let grid: Grid<ConwayCell> = Grid::new_empty(5, 4, Boundary::FreeBoundary(FreeBoundary));
    assert_eq!(grid.grid_idx(3, 2), Some(13));
    assert_eq!(grid.to_idx(&GridPos::new(3, 2)), 13);
    assert_eq!(grid.grid_idx(-1, 0), None);
    assert_eq!(grid.grid_idx(5, 0), None);
    assert_eq!(grid.grid_idx(0, 4), None);
    assert_eq!(grid.grid_idx(0, -1), None);
}

#[test]
fn grid_pos_iter_is_row_major_and_complete() {
    let grid: Grid<ConwayCell> = Grid::new_empty(3, 2, Boundary::FreeBoundary(FreeBoundary));
    let positions = grid.get_grid_pos_iter();
    let expected = vec![
        GridPos::new(0, 0),
        GridPos::new(1, 0),
        GridPos::new(2, 0),
        GridPos::new(0, 1),
        GridPos::new(1, 1),
        GridPos::new(2, 1),
    ];
    assert_eq!(positions, expected);
}

#[test]
fn draw_writes_four_bytes_per_cell() {
    let mut grid: Grid<ConwayCell> =
        Grid::new_empty(2, 1, Boundary::PeriodicBoundary(PeriodicBoundary));
    grid.cells[0] = ConwayCell { alive: true, heat: 255 };
    grid.cells[1] = ConwayCell { alive: false, heat: 17 };
    let mut screen: Vec<u8> = vec![0; 8];
    grid.draw(&mut screen);
    assert_eq!(&screen[0..4], &[0, 0xFF, 0xFF, 0xFF]);
    assert_eq!(&screen[4..8], &[0, 0, 17, 0xFF]);
}

#[test]
fn randomize_is_deterministic_for_a_fixed_seed() {
    let mut rng_a = Pcg32::seed(1234, 5678);
    let mut rng_b = Pcg32::seed(1234, 5678);
    let mut a: Grid<ConwayCell> =
        Grid::new_empty(8, 8, Boundary::PeriodicBoundary(PeriodicBoundary));
    // A different boundary policy and different prior contents must not
    // matter: the fill depends on the seed and dimensions alone.
    let mut b: Grid<ConwayCell> = Grid::new_empty(8, 8, Boundary::FreeBoundary(FreeBoundary));
    b.cells[0] = ConwayCell { alive: true, heat: 250 };
    a.randomize(&mut rng_a);
    b.randomize(&mut rng_b);
    assert_eq!(a.cells, b.cells);
}

#[test]
fn randomize_differs_for_different_seeds() {
    let mut rng_a = Pcg32::seed(1, 1);
    let mut rng_b = Pcg32::seed(2, 1);
    let mut a: Grid<ConwayCell> =
        Grid::new_empty(16, 16, Boundary::PeriodicBoundary(PeriodicBoundary));
    let mut b: Grid<ConwayCell> =
        Grid::new_empty(16, 16, Boundary::PeriodicBoundary(PeriodicBoundary));
    a.randomize(&mut rng_a);
    b.randomize(&mut rng_b);
    assert_ne!(a.cells, b.cells);
}

#[test]
fn new_random_matches_new_empty_plus_randomize() {
    let mut rng_a = Pcg32::seed(99, 7);
    let mut rng_b = Pcg32::seed(99, 7);
    let a: Grid<AbelianSandpileCell> = Grid::new_random(
        6,
        5,
        Boundary::PeriodicBoundary(PeriodicBoundary),
        &mut rng_a,
    );
    let mut b: Grid<AbelianSandpileCell> =
        Grid::new_empty(6, 5, Boundary::PeriodicBoundary(PeriodicBoundary));
    b.randomize(&mut rng_b);
    assert_eq!(a.cells, b.cells);
    for c in &a.cells {
        assert!(c.height >= 0 && c.height <= 4);
    }
}

#[test]
fn buffer_sizes_invariant_across_updates() {
    let mut rng = Pcg32::seed(7, 3);
    let grid: Grid<ConwayCell> = Grid::new_random(
        9,
        7,
        Boundary::PeriodicBoundary(PeriodicBoundary),
        &mut rng,
    );
    let mut system = GenericSystem::new(grid);
    for _ in 0..5 {
        system.update();
        assert_eq!(system.get_grid().cells.len(), 9 * 7);
        assert_eq!(system.get_grid().scratch_cells.len(), 9 * 7);
    }
}

#[test]
fn generate_seed_draws_entropy() {
    let seed = cellular::util::generate_seed();
    assert!(seed.is_some());
}

#[test]
fn read_u64_le_decodes_exactly() {
    let bytes: Vec<u8> = vec![1, 0, 0, 0, 0, 0, 0, 0, 0x34, 0x12, 0, 0, 0, 0, 0, 0];
    assert_eq!(cellular::util::read_u64_le(&bytes, 0), 1);
    assert_eq!(cellular::util::read_u64_le(&bytes, 8), 0x1234);
}

#[test]
fn stencil_coords_enumerates_centered_offsets() {
    let coords = cellular::util::stencil_coords(3, 3);
    let expected = vec![
        GridPos::new(-1, -1),
        GridPos::new(0, -1),
        GridPos::new(1, -1),
        GridPos::new(-1, 0),
        GridPos::new(0, 0),
        GridPos::new(1, 0),
        GridPos::new(-1, 1),
        GridPos::new(0, 1),
        GridPos::new(1, 1),
    ];
    assert_eq!(coords, expected);
}

#[test]
fn pcg_streams_are_reproducible() {
    let mut a = Pcg32::seed(42, 54);
    let mut b = Pcg32::seed(42, 54);
    for _ in 0..100 {
        assert_eq!(a.next_u32(), b.next_u32());
    }
    let mut c = Pcg32::seed(42, 55);
    let first_hundred_a: Vec<u32> = (0..100).map(|_| a.next_u32()).collect();
    let first_hundred_c: Vec<u32> = (0..100).map(|_| c.next_u32()).collect();
    assert_ne!(first_hundred_a, first_hundred_c);
    for _ in 0..100 {
        assert!(a.next_bounded(5) < 5);
    }
}

#[test]
fn default_config_values() {
    let config = cellular::config::Config::default();
    assert_eq!(config.grid_width, 200);
    assert_eq!(config.grid_height, 200);
    assert_eq!(config.per_frame_updates, 1);
    assert_eq!(config.system, cellular::config::SystemConfig::XYModel);
    assert_eq!(config.boundary, cellular::config::BoundaryConfig::Periodic);
}

#[test]
fn default_input_result_requests_nothing() {
    let input = cellular::input::InputResult::default();
    assert!(!input.request_exit && !input.pause && !input.randomize && !input.clear);
}
