//! A transient, read-only window onto one grid, bound to a single origin
//! position. Its only job is to translate relative offsets into absolute
//! lookups through the grid's boundary policy. A view lives only for the
//! duration of a single cell's update or interaction computation.
use vstd::prelude::*;

verus! {

use crate::grid::{Grid, GridModel};
use crate::grid::grid_pos::{GridInt, GridPos, pos_in_range};

/// A non-owning accessor bound to one origin and one borrowed grid.
pub struct GridView<'a, C> {
    pub origin: GridPos,
    pub grid: &'a Grid<C>,
}

impl<'a, C> GridView<'a, C> {
    /// A view is well-formed when its grid is and its origin lies inside
    /// the stored rectangle.
    pub open spec fn wf(&self) -> bool {
        &&& self.grid.wf()
        &&& pos_in_range(self.origin, self.grid.width as int, self.grid.height as int)
    }

    /// The observable content of the underlying grid.
    pub open spec fn model(&self) -> GridModel<C> {
        self.grid.model()
    }

    pub fn new(origin: GridPos, grid: &'a Grid<C>) -> (r: GridView<'a, C>)
        requires
            grid.wf(),
            pos_in_range(origin, grid.width as int, grid.height as int),
        ensures
            r.origin == origin,
            r.grid == grid,
            r.wf(),
    {
        GridView { origin, grid }
    }

    /// The cell at relative offset `(x, y)` from the origin, resolved
    /// through the boundary policy (total in the offset).
    pub fn get_cell_at_coord(&self, x: GridInt, y: GridInt) -> (r: &C)
        requires
            self.wf(),
            i32::MIN <= self.origin.x + x <= i32::MAX,
            i32::MIN <= self.origin.y + y <= i32::MAX,
        ensures
            *r == self.model().get(
                GridPos { x: (self.origin.x + x) as GridInt, y: (self.origin.y + y) as GridInt },
            ),
    {
        self.grid.get_cell_at(GridPos::new(x + self.origin.x, y + self.origin.y))
    }

    /// The cell at the relative offset given as a position.
    pub fn get_cell_at(&self, pos: GridPos) -> (r: &C)
        requires
            self.wf(),
            i32::MIN <= self.origin.x + pos.x <= i32::MAX,
            i32::MIN <= self.origin.y + pos.y <= i32::MAX,
        ensures
            *r == self.model().get(
                GridPos {
                    x: (self.origin.x + pos.x) as GridInt,
                    y: (self.origin.y + pos.y) as GridInt,
                },
            ),
    {
        self.get_cell_at_coord(pos.x, pos.y)
    }

    /// The width of the underlying grid, for rules with spatially varying
    /// terms.
    pub fn grid_width(&self) -> (r: GridInt)
        requires
            self.wf(),
        ensures
            r == self.grid.width,
    {
        self.grid.width as GridInt
    }

    /// The height of the underlying grid.
    pub fn grid_height(&self) -> (r: GridInt)
        requires
            self.wf(),
        ensures
            r == self.grid.height,
    {
        self.grid.height as GridInt
    }
}

} // verus!
