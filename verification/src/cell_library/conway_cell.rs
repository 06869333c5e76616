//! A life-like automaton: a cell is born with exactly three live
//! neighbors and survives with two or three, and dead cells carry a
//! decaying heat trail for rendering.
use vstd::prelude::*;

verus! {

use crate::cell::{Cell, HasColor};
use crate::grid::GridModel;
use crate::grid::grid_pos::{GridInt, GridPos};
use crate::grid::grid_view::GridView;
use crate::rng::{Pcg32, pcg_next};
use crate::util::Color;

/// A fresh random cell is alive when its 32-bit draw exceeds this
/// threshold (about three tenths of the range).
pub const INITIAL_FILL_THRESHOLD: u32 = 1288490188;

#[derive(Clone, Copy, Debug, Default, PartialEq, Eq, Structural)]
pub struct ConwayCell {
    pub alive: bool,
    /// The trail effect: always 255 while alive, decaying by one per
    /// generation while dead.
    pub heat: u8,
}

impl ConwayCell {
    pub fn new(alive: bool) -> (r: Self)
        ensures
            r == (ConwayCell { alive: alive, heat: 0 }),
    {
        Self { alive, heat: 0 }
    }

    /// The state after being told to live or die: a live cell glows at
    /// full heat; a dead cell's heat decays by one, stopping at zero.
    pub open spec fn next_state_spec(self, alive: bool) -> Self {
        if alive {
            ConwayCell { alive: true, heat: 255 }
        } else {
            ConwayCell {
                alive: false,
                heat: if self.heat > 0 {
                    (self.heat - 1) as u8
                } else {
                    0
                },
            }
        }
    }

    /// One when the cell at offset `(dx, dy)` from `origin` is alive,
    /// else zero.
    pub open spec fn alive_at(m: GridModel<Self>, origin: GridPos, dx: int, dy: int) -> int {
        if m.get(
            GridPos { x: (origin.x + dx) as GridInt, y: (origin.y + dy) as GridInt },
        ).alive {
            1
        } else {
            0
        }
    }

    /// The number of live cells among the eight nearest neighbors.
    pub open spec fn count_neibs_spec(m: GridModel<Self>, origin: GridPos) -> int {
        Self::alive_at(m, origin, 1, 0) + Self::alive_at(m, origin, 1, 1) + Self::alive_at(
            m,
            origin,
            0,
            1,
        ) + Self::alive_at(m, origin, -1, 1) + Self::alive_at(m, origin, -1, 0) + Self::alive_at(
            m,
            origin,
            -1,
            -1,
        ) + Self::alive_at(m, origin, 0, -1) + Self::alive_at(m, origin, 1, -1)
    }

    /// Whether a cell with `n` live neighbors is alive next generation:
    /// birth on exactly three, survival on two or three.
    pub open spec fn next_alive_spec(self, n: int) -> bool {
        if self.alive {
            n == 2 || n == 3
        } else {
            n == 3
        }
    }

    #[must_use]
    fn next_state(self, alive: bool) -> (r: Self)
        ensures
            r == self.next_state_spec(alive),
    {
        if alive {
            ConwayCell { alive: true, heat: 255 }
        } else {
            ConwayCell {
                alive: false,
                heat: if self.heat > 0 {
                    self.heat - 1
                } else {
                    0
                },
            }
        }
    }

    fn set_alive(&mut self, alive: bool)
        ensures
            *final(self) == old(self).next_state_spec(alive),
    {
        *self = self.next_state(alive);
    }

    fn count_neibs(grid_view: GridView<'_, Self>) -> (n: usize)
        requires
            grid_view.wf(),
        ensures
            n == Self::count_neibs_spec(grid_view.model(), grid_view.origin),
            n <= 8,
    {
        let mut n: usize = 0;
        if grid_view.get_cell_at_coord(1, 0).alive {
            n = n + 1;
        }
        if grid_view.get_cell_at_coord(1, 1).alive {
            n = n + 1;
        }
        if grid_view.get_cell_at_coord(0, 1).alive {
            n = n + 1;
        }
        if grid_view.get_cell_at_coord(-1, 1).alive {
            n = n + 1;
        }
        if grid_view.get_cell_at_coord(-1, 0).alive {
            n = n + 1;
        }
        if grid_view.get_cell_at_coord(-1, -1).alive {
            n = n + 1;
        }
        if grid_view.get_cell_at_coord(0, -1).alive {
            n = n + 1;
        }
        if grid_view.get_cell_at_coord(1, -1).alive {
            n = n + 1;
        }
        n
    }
}

impl Cell for ConwayCell {
    open spec fn spec_default() -> Self {
        ConwayCell { alive: false, heat: 0 }
    }

    open spec fn spec_draw(&self) -> Seq<u8> {
        if self.alive {
            seq![0u8, 0xFFu8, 0xFFu8, 0xFFu8]
        } else {
            seq![0u8, 0u8, self.heat, 0xFFu8]
        }
    }

    open spec fn rand_spec(rng: Pcg32, pos: GridPos) -> (Self, Pcg32) {
        let n = pcg_next(rng);
        (ConwayCell { alive: n.0 > INITIAL_FILL_THRESHOLD, heat: 0 }, n.1)
    }

    open spec fn spec_update(&self, origin: GridPos, m: GridModel<Self>) -> Self {
        self.next_state_spec(self.next_alive_spec(Self::count_neibs_spec(m, origin)))
    }

    open spec fn spec_toggle(&self, target_pos: GridPos, grid_pos: GridPos) -> Self {
        if target_pos == grid_pos {
            self.next_state_spec(!self.alive)
        } else {
            *self
        }
    }

    open spec fn spec_line_action(&self, target_pos: GridPos, grid_pos: GridPos, alive: bool) -> Self {
        self.next_state_spec(alive)
    }

    fn default_cell() -> (r: Self) {
        ConwayCell { alive: false, heat: 0 }
    }

    fn clone_cell(&self) -> (r: Self) {
        *self
    }

    fn random(rng: &mut Pcg32, grid_pos: GridPos) -> (r: Self) {
        let v = rng.next_u32();
        ConwayCell::new(v > INITIAL_FILL_THRESHOLD)
    }

    fn update(&self, grid_view: GridView<'_, Self>) -> (r: Self) {
        let next_alive: bool;
        let n = Self::count_neibs(grid_view);
        if self.alive {
            next_alive = n == 2 || n == 3;
        } else {
            next_alive = n == 3;
        }
        self.next_state(next_alive)
    }

    fn draw(&self) -> (r: Color) {
        if self.alive {
            [0u8, 0xFFu8, 0xFFu8, 0xFFu8]
        } else {
            [0u8, 0u8, self.heat, 0xFFu8]
        }
    }

    fn toggle(&mut self, target_pos: &GridPos, grid_pos: &GridPos) {
        let was_alive = self.alive;
        if target_pos.x == grid_pos.x && target_pos.y == grid_pos.y {
            self.set_alive(!was_alive);
        }
    }

    fn line_action(&mut self, target_pos: &GridPos, grid_pos: &GridPos, alive: bool) {
        self.set_alive(alive);
    }
}

impl HasColor for ConwayCell {
    open spec fn color_spec(&self) -> Seq<u8> {
        self.spec_draw()
    }

    fn draw(&self) -> (r: Color) {
        Cell::draw(self)
    }
}

} // verus!
