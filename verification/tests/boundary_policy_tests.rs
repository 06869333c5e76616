use cellular::cell::Cell;
use cellular::cell_library::conway_cell::ConwayCell;
use cellular::grid::boundary::{Boundary, ConstantBoundary, FreeBoundary, PeriodicBoundary};
use cellular::grid::grid_pos::GridPos;
use cellular::grid::Grid;

fn marked(height: u8) -> ConwayCell {
    ConwayCell {
        alive: true,
        heat: height,
    }
}

#[test]
fn periodic_wrap_negative_x() {
    let mut grid: Grid<ConwayCell> =
        Grid::new_empty(5, 3, Boundary::PeriodicBoundary(PeriodicBoundary));
    let idx = grid.to_idx(&GridPos::new(4, 0));
    grid.cells[idx] = marked(7);
    let a = *grid.get_cell_at(GridPos::new(-1, 0));
    let b = *grid.get_cell_at(GridPos::new(4, 0));
    assert_eq!(a, b);
    assert_eq!(a, marked(7));
}

#[test]
fn periodic_wrap_both_axes() {
    let mut grid: Grid<ConwayCell> =
        Grid::new_empty(4, 4, Boundary::PeriodicBoundary(PeriodicBoundary));
    let idx = grid.to_idx(&GridPos::new(1, 2));
    grid.cells[idx] = marked(9);
    assert_eq!(*grid.get_cell_at(GridPos::new(1 - 4, 2 + 4)), marked(9));
    assert_eq!(*grid.get_cell_at(GridPos::new(1 + 8, 2 - 8)), marked(9));
}

#[test]
fn boundary_totality_extreme_coordinates() {
    let periodic: Grid<ConwayCell> =
        Grid::new_empty(7, 5, Boundary::PeriodicBoundary(PeriodicBoundary));
    let constant: Grid<ConwayCell> = Grid::new_empty(
        7,
        5,
        Boundary::ConstantBoundary(ConstantBoundary(marked(3))),
    );
    let free: Grid<ConwayCell> = Grid::new_empty(7, 5, Boundary::FreeBoundary(FreeBoundary));
    let extremes = [
        GridPos::new(i32::MIN, 0),
        GridPos::new(i32::MAX, 0),
        GridPos::new(0, i32::MIN),
        GridPos::new(0, i32::MAX),
        GridPos::new(i32::MIN, i32::MAX),
        GridPos::new(i32::MAX, i32::MIN),
    ];
    for pos in extremes {
        // Every policy must resolve without failing.
        let _ = *periodic.get_cell_at(pos);
        assert_eq!(*constant.get_cell_at(pos), marked(3));
        let _ = *free.get_cell_at(pos);
    }
    // The free boundary clamps each axis independently.
    assert_eq!(
        *free.get_cell_at(GridPos::new(i32::MAX, i32::MIN)),
        *free.get_cell_at(GridPos::new(6, 0))
    );
}

#[test]
fn constant_boundary_isolation() {
    let mut grid: Grid<ConwayCell> = Grid::new_empty(
        3,
        3,
        Boundary::ConstantBoundary(ConstantBoundary(marked(42))),
    );
    // Mutating every in-range cell never changes the sentinel seen
    // outside the rectangle.
    for i in 0..9 {
        grid.cells[i] = marked(i as u8);
    }
    assert_eq!(*grid.get_cell_at(GridPos::new(-1, 0)), marked(42));
    assert_eq!(*grid.get_cell_at(GridPos::new(3, 3)), marked(42));
    // And the sentinel never bleeds into in-range lookups.
    assert_eq!(*grid.get_cell_at(GridPos::new(2, 2)), marked(8));
}

#[test]
fn constant_boundary_empty_sentinel_is_default() {
    let grid: Grid<ConwayCell> = Grid::new_empty(
        2,
        2,
        Boundary::ConstantBoundary(ConstantBoundary::empty()),
    );
    assert_eq!(*grid.get_cell_at(GridPos::new(-5, -5)), ConwayCell::default_cell());
}

#[test]
fn free_boundary_clamps_to_edge() {
    let mut grid: Grid<ConwayCell> = Grid::new_empty(6, 4, Boundary::FreeBoundary(FreeBoundary));
    let idx = grid.to_idx(&GridPos::new(5, 0));
    grid.cells[idx] = marked(11);
    assert_eq!(
        *grid.get_cell_at(GridPos::new(6, 0)),
        *grid.get_cell_at(GridPos::new(5, 0))
    );
    assert_eq!(*grid.get_cell_at(GridPos::new(1000, 0)), marked(11));
    let idx2 = grid.to_idx(&GridPos::new(0, 3));
    grid.cells[idx2] = marked(13);
    assert_eq!(*grid.get_cell_at(GridPos::new(-9, 99)), marked(13));
}

#[test]
fn modulo_matches_mathematical_remainder() {
    assert_eq!(cellular::util::modulo(-1, 5), 4);
    assert_eq!(cellular::util::modulo(-5, 5), 0);
    assert_eq!(cellular::util::modulo(-6, 5), 4);
    assert_eq!(cellular::util::modulo(7, 5), 2);
    assert_eq!(cellular::util::modulo(0, 5), 0);
    assert_eq!(cellular::util::modulo(i32::MIN, 3), 1);
    assert_eq!(cellular::util::modulo(i32::MAX, 2), 1);
}
