use cellular::cell::{Cell, System};
use cellular::cell_library::conway_cell::ConwayCell;
use cellular::cell_library::particle_diffusion::ParticleCounter;
use cellular::cell_library::sandpile::AbelianSandpileCell;
use cellular::generic_system::GenericSystem;
use cellular::grid::boundary::{Boundary, ConstantBoundary, PeriodicBoundary};
use cellular::grid::grid_pos::GridPos;
use cellular::grid::grid_view::GridView;
use cellular::grid::Grid;
use cellular::rng::Pcg32;

fn conway_system(width: usize, height: usize) -> GenericSystem<ConwayCell> {
    GenericSystem::new(Grid::new_empty(
        width,
        height,
        Boundary::PeriodicBoundary(PeriodicBoundary),
    ))
}

#[test]
fn toggle_round_trip_flips_only_the_target() {
    let mut system = conway_system(3, 3);
    let before: Vec<ConwayCell> = system.get_grid().cells.clone();
    assert!(system.toggle(1, 1));
    let target = system.get_grid().to_idx(&GridPos::new(1, 1));
    for i in 0..9 {
        if i == target {
            assert_ne!(system.get_grid().cells[i].alive, before[i].alive);
        } else {
            assert_eq!(system.get_grid().cells[i], before[i]);
        }
    }
    assert!(system.toggle(1, 1));
    for i in 0..9 {
        assert_eq!(system.get_grid().cells[i].alive, before[i].alive);
    }
}

#[test]
fn toggle_out_of_range_is_ignored() {
    let mut system = conway_system(3, 3);
    let before: Vec<ConwayCell> = system.get_grid().cells.clone();
    assert!(!system.toggle(3, 0));
    assert!(!system.toggle(0, -1));
    assert_eq!(system.get_grid().cells, before);
}

#[test]
fn line_stops_at_the_first_out_of_range_point() {
    let mut system = conway_system(10, 10);
    // One broadcast sets every cell alive at full heat.
    system.set_line(0, 0, 0, 0, true);
    for c in &system.get_grid().cells {
        assert_eq!(*c, ConwayCell { alive: true, heat: 255 });
    }
    // A horizontal line toward x = 100 visits x = 0..=9 inside the grid
    // and stops at x = 10, so every cell sees exactly ten broadcasts,
    // each decaying its heat by one.
    system.set_line(0, 0, 100, 0, false);
    for c in &system.get_grid().cells {
        assert_eq!(*c, ConwayCell { alive: false, heat: 245 });
    }
}

#[test]
fn line_with_clamped_start_still_draws() {
    let mut system = conway_system(4, 4);
    // The start is clamped into [0, width] x [0, height]; from (-3, 0)
    // it starts at (0, 0) and walks to (3, 0), so one broadcast per
    // visited point reaches every cell: four in all.
    system.set_line(-3, 0, 3, 0, true);
    for c in &system.get_grid().cells {
        assert_eq!(*c, ConwayCell { alive: true, heat: 255 });
    }
}

#[test]
fn conway_blinker_oscillates() {
    let mut system = GenericSystem::new(Grid::<ConwayCell>::new_empty(
        5,
        5,
        Boundary::ConstantBoundary(ConstantBoundary::empty()),
    ));
    for (x, y) in [(2, 1), (2, 2), (2, 3)] {
        let idx = system.get_grid().to_idx(&GridPos::new(x, y));
        system.get_grid_mut().cells[idx] = ConwayCell { alive: true, heat: 255 };
    }
    system.update();
    let alive: Vec<(i32, i32)> = system
        .get_grid()
        .get_grid_pos_iter()
        .into_iter()
        .filter(|p| system.get_grid().get_cell_at(*p).alive)
        .map(|p| (p.x, p.y))
        .collect();
    assert_eq!(alive, vec![(1, 2), (2, 2), (3, 2)]);
    system.update();
    let alive2: Vec<(i32, i32)> = system
        .get_grid()
        .get_grid_pos_iter()
        .into_iter()
        .filter(|p| system.get_grid().get_cell_at(*p).alive)
        .map(|p| (p.x, p.y))
        .collect();
    assert_eq!(alive2, vec![(2, 1), (2, 2), (2, 3)]);
}

#[test]
fn conway_heat_trail_decays() {
    let mut system = conway_system(3, 3);
    // A single live cell dies of loneliness; its heat then decays.
    let idx = system.get_grid().to_idx(&GridPos::new(1, 1));
    system.get_grid_mut().cells[idx] = ConwayCell { alive: true, heat: 255 };
    system.update();
    assert_eq!(
        system.get_grid().cells[idx],
        ConwayCell { alive: false, heat: 254 }
    );
    system.update();
    assert_eq!(
        system.get_grid().cells[idx],
        ConwayCell { alive: false, heat: 253 }
    );
}

#[test]
fn sandpile_topples_to_neighbors() {
    let mut system = GenericSystem::new(Grid::<AbelianSandpileCell>::new_empty(
        3,
        3,
        Boundary::ConstantBoundary(ConstantBoundary::empty()),
    ));
    let center = system.get_grid().to_idx(&GridPos::new(1, 1));
    system.get_grid_mut().cells[center] = AbelianSandpileCell { height: 4 };
    system.update();
    let expect = |x: i32, y: i32| -> i32 {
        if (x - 1).abs() + (y - 1).abs() == 1 {
            1
        } else {
            0
        }
    };
    for pos in system.get_grid().get_grid_pos_iter() {
        assert_eq!(
            system.get_grid().get_cell_at(pos).height,
            expect(pos.x, pos.y),
            "at {:?}",
            pos
        );
    }
}

#[test]
fn sandpile_toggle_deposits_a_column() {
    let mut system = GenericSystem::new(Grid::<AbelianSandpileCell>::new_empty(
        3,
        3,
        Boundary::PeriodicBoundary(PeriodicBoundary),
    ));
    assert!(system.toggle(0, 2));
    let idx = system.get_grid().to_idx(&GridPos::new(0, 2));
    assert_eq!(system.get_grid().cells[idx].height, 200000);
    for pos in system.get_grid().get_grid_pos_iter() {
        if system.get_grid().to_idx(&pos) != idx {
            assert_eq!(system.get_grid().get_cell_at(pos).height, 0);
        }
    }
}

#[test]
fn update_reads_only_the_prior_generation() {
    // Stale scratch contents must never leak into the next generation:
    // two systems that differ only in their scratch buffers agree after
    // an update.
    let mut a = conway_system(4, 4);
    let mut b = conway_system(4, 4);
    for i in 0..16 {
        let cell = ConwayCell {
            alive: i % 3 == 0,
            heat: i as u8,
        };
        a.get_grid_mut().cells[i] = cell;
        b.get_grid_mut().cells[i] = cell;
        b.get_grid_mut().scratch_cells[i] = ConwayCell {
            alive: true,
            heat: 99,
        };
    }
    a.update();
    b.update();
    assert_eq!(a.get_grid().cells, b.get_grid().cells);
}

#[test]
fn grid_view_reads_relative_offsets() {
    let mut grid: Grid<ConwayCell> =
        Grid::new_empty(4, 4, Boundary::PeriodicBoundary(PeriodicBoundary));
    let idx = grid.to_idx(&GridPos::new(0, 1));
    grid.cells[idx] = ConwayCell { alive: true, heat: 21 };
    let view = GridView::new(GridPos::new(3, 0), &grid);
    assert_eq!(view.grid_width(), 4);
    assert_eq!(view.grid_height(), 4);
    // One step right of x = 3 wraps to x = 0; one step down reaches y = 1.
    assert_eq!(
        *view.get_cell_at_coord(1, 1),
        ConwayCell { alive: true, heat: 21 }
    );
    assert_eq!(
        *view.get_cell_at(GridPos::new(1, 1)),
        ConwayCell { alive: true, heat: 21 }
    );
}

#[test]
fn particle_counter_round_trips_and_counts() {
    let counter = ParticleCounter::from_arr(&[3, 5, 7, 11]);
    assert_eq!(counter.up, 3);
    assert_eq!(counter.down, 5);
    assert_eq!(counter.left, 7);
    assert_eq!(counter.right, 11);
    assert_eq!(counter.to_arr(), [3, 5, 7, 11]);
    assert_eq!(counter.total(), 26);
}

#[test]
fn particle_counter_distributes_exactly_n() {
    let mut rng = Pcg32::seed(5, 5);
    for n in [0u32, 1, 2, 10, 1000] {
        let counter = ParticleCounter::randomize_n(n, &mut rng);
        assert_eq!(counter.total(), n);
    }
    let mut rng_a = Pcg32::seed(77, 1);
    let mut rng_b = Pcg32::seed(77, 1);
    assert_eq!(
        ParticleCounter::randomize_n(500, &mut rng_a),
        ParticleCounter::randomize_n(500, &mut rng_b)
    );
}

#[test]
fn conway_cell_colors() {
    let live = ConwayCell { alive: true, heat: 255 };
    let dead = ConwayCell { alive: false, heat: 40 };
    assert_eq!(Cell::draw(&live), [0, 0xFF, 0xFF, 0xFF]);
    assert_eq!(Cell::draw(&dead), [0, 0, 40, 0xFF]);
}

#[test]
fn sandpile_color_map() {
    for (height, color) in [
        (0, [0, 0, 0, 0]),
        (1, [0xFF, 0, 0xFF, 0]),
        (2, [0, 0, 0xFF, 0]),
        (3, [0, 0xFF, 0, 0]),
        (4, [0xFF, 0xFF, 0, 0]),
        (5, [0xFF, 0, 0, 0]),
        (100, [0xFF, 0, 0, 0]),
    ] {
        let cell = AbelianSandpileCell { height };
        assert_eq!(Cell::draw(&cell), color);
    }
}

#[test]
fn conway_random_threshold_drives_density() {
    let mut rng = Pcg32::seed(2024, 11);
    let mut live = 0usize;
    let total = 10000usize;
    for _ in 0..total {
        if ConwayCell::random(&mut rng, GridPos::new(0, 0)).alive {
            live += 1;
        }
    }
    // The fill threshold sits at about three tenths of the draw range,
    // so roughly seven tenths of fresh cells are alive.
    assert!(live > total * 6 / 10 && live < total * 8 / 10);
}

#[test]
fn one_by_one_periodic_grid() {
    let mut system = conway_system(1, 1);
    system.get_grid_mut().cells[0] = ConwayCell { alive: true, heat: 255 };
    // All eight neighbor offsets wrap back onto the single cell itself,
    // so the live cell sees eight live neighbors and dies of crowding.
    system.update();
    assert_eq!(
        system.get_grid().cells[0],
        ConwayCell { alive: false, heat: 254 }
    );
    // Every coordinate whatsoever resolves to the one stored cell.
    assert_eq!(
        *system.get_grid().get_cell_at(GridPos::new(123456, -987654)),
        system.get_grid().cells[0]
    );
}

#[test]
fn update_cell_matches_update() {
    let mut grid: Grid<ConwayCell> =
        Grid::new_empty(3, 3, Boundary::PeriodicBoundary(PeriodicBoundary));
    let idx = grid.to_idx(&GridPos::new(0, 0));
    grid.cells[idx] = ConwayCell { alive: true, heat: 255 };
    let system = GenericSystem::new(grid);
    let pos = GridPos::new(1, 1);
    let view = GridView::new(pos, system.get_grid());
    let cell = *system.get_grid().get_cell_at(pos);
    let next = system.update_cell(view, &cell);
    // On a 3x3 periodic grid the single live cell is seen once in each
    // of the eight neighbor directions... except it is seen through
    // wrapping several times: count it directly instead.
    let view2 = GridView::new(pos, system.get_grid());
    let mut live_neighbors: usize = 0;
    for (dx, dy) in [(1, 0), (1, 1), (0, 1), (-1, 1), (-1, 0), (-1, -1), (0, -1), (1, -1)] {
        if view2.get_cell_at_coord(dx, dy).alive {
            live_neighbors += 1;
        }
    }
    assert_eq!(next.alive, live_neighbors == 3);
}
