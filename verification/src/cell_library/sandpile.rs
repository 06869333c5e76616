//! The abelian sandpile: a cell at or above the critical height topples,
//! sending one grain to each of its four neighbors; a cell receives one
//! grain from each toppling neighbor.
use vstd::prelude::*;

verus! {

use crate::cell::{Cell, HasColor};
use crate::grid::GridModel;
use crate::grid::grid_pos::{GridInt, GridPos};
use crate::grid::grid_view::GridView;
use crate::rng::{Pcg32, pcg_next_bounded};
use crate::util::Color;

/// The height at which a cell topples.
pub const CRITICAL_HEIGHT: i32 = 4;

/// The height deposited by a point interaction.
pub const TOGGLE_HEIGHT: i32 = 200000;

#[derive(Clone, Copy, Debug, Default, PartialEq, Eq, Structural)]
pub struct AbelianSandpileCell {
    pub height: i32,
}

impl AbelianSandpileCell {
    /// Whether this cell topples this generation.
    pub open spec fn will_topple_spec(self) -> bool {
        self.height >= CRITICAL_HEIGHT
    }

    /// One when the cell at offset `(dx, dy)` from `origin` topples, else
    /// zero.
    pub open spec fn topple_at(m: GridModel<Self>, origin: GridPos, dx: int, dy: int) -> int {
        if m.get(
            GridPos { x: (origin.x + dx) as GridInt, y: (origin.y + dy) as GridInt },
        ).will_topple_spec() {
            1
        } else {
            0
        }
    }

    /// The number of grains arriving from the four toppling neighbors.
    pub open spec fn neighbor_sand_spec(m: GridModel<Self>, origin: GridPos) -> int {
        Self::topple_at(m, origin, 1, 0) + Self::topple_at(m, origin, -1, 0) + Self::topple_at(
            m,
            origin,
            0,
            1,
        ) + Self::topple_at(m, origin, 0, -1)
    }

    fn will_topple(&self) -> (r: bool)
        ensures
            r == self.will_topple_spec(),
    {
        self.height >= CRITICAL_HEIGHT
    }

    fn get_neighbor_sand(grid_view: &GridView<'_, Self>) -> (r: i32)
        requires
            grid_view.wf(),
        ensures
            r == Self::neighbor_sand_spec(grid_view.model(), grid_view.origin),
            0 <= r <= 4,
    {
        let mut r: i32 = 0;
        if grid_view.get_cell_at_coord(1, 0).will_topple() {
            r = r + 1;
        }
        if grid_view.get_cell_at_coord(-1, 0).will_topple() {
            r = r + 1;
        }
        if grid_view.get_cell_at_coord(0, 1).will_topple() {
            r = r + 1;
        }
        if grid_view.get_cell_at_coord(0, -1).will_topple() {
            r = r + 1;
        }
        r
    }

    /// The height-keyed color map: black, magenta, blue, green, yellow,
    /// and red for anything above the critical height.
    pub open spec fn colormap_spec(self) -> Seq<u8> {
        if self.height == 0 {
            seq![0u8, 0u8, 0u8, 0u8]
        } else if self.height == 1 {
            seq![0xFFu8, 0u8, 0xFFu8, 0u8]
        } else if self.height == 2 {
            seq![0u8, 0u8, 0xFFu8, 0u8]
        } else if self.height == 3 {
            seq![0u8, 0xFFu8, 0u8, 0u8]
        } else if self.height == 4 {
            seq![0xFFu8, 0xFFu8, 0u8, 0u8]
        } else {
            seq![0xFFu8, 0u8, 0u8, 0u8]
        }
    }

    fn colormap_1(&self) -> (r: Color)
        ensures
            r@ == self.colormap_spec(),
    {
        if self.height == 0 {
            [0u8, 0u8, 0u8, 0u8]
        } else if self.height == 1 {
            [0xFFu8, 0u8, 0xFFu8, 0u8]
        } else if self.height == 2 {
            [0u8, 0u8, 0xFFu8, 0u8]
        } else if self.height == 3 {
            [0u8, 0xFFu8, 0u8, 0u8]
        } else if self.height == 4 {
            [0xFFu8, 0xFFu8, 0u8, 0u8]
        } else {
            [0xFFu8, 0u8, 0u8, 0u8]
        }
    }

    /// The shade used by the grayscale map: the height scaled by 25 and
    /// clipped to a byte.
    pub open spec fn shade_spec(self) -> u8 {
        crate::grid::boundary::clamp_spec(self.height * 25, 0, 0xFF) as u8
    }

    fn grayscale(&self) -> (r: Color)
        ensures
            r@ == seq![
                self.shade_spec(),
                (self.shade_spec() / 2) as u8,
                (self.shade_spec() / 4) as u8,
                0u8,
            ],
    {
        let wide: i64 = (self.height as i64) * 25;
        let shade: u8 = if wide < 0 {
            0
        } else if wide > 0xFF {
            0xFF
        } else {
            wide as u8
        };
        [shade, shade / 2, shade / 4, 0u8]
    }
}

impl Cell for AbelianSandpileCell {
    open spec fn spec_default() -> Self {
        AbelianSandpileCell { height: 0 }
    }

    open spec fn spec_draw(&self) -> Seq<u8> {
        self.colormap_spec()
    }

    open spec fn rand_spec(rng: Pcg32, pos: GridPos) -> (Self, Pcg32) {
        let n = pcg_next_bounded(rng, 5);
        (AbelianSandpileCell { height: n.0 as i32 }, n.1)
    }

    open spec fn spec_update(&self, origin: GridPos, m: GridModel<Self>) -> Self {
        let sand_in = Self::neighbor_sand_spec(m, origin);
        let base = if self.will_topple_spec() {
            self.height - CRITICAL_HEIGHT
        } else {
            self.height as int
        };
        AbelianSandpileCell { height: (base + sand_in) as i32 }
    }

    open spec fn spec_toggle(&self, target_pos: GridPos, grid_pos: GridPos) -> Self {
        if grid_pos == target_pos {
            AbelianSandpileCell { height: TOGGLE_HEIGHT }
        } else {
            *self
        }
    }

    open spec fn spec_line_action(&self, target_pos: GridPos, grid_pos: GridPos, alive: bool) -> Self {
        *self
    }

    fn default_cell() -> (r: Self) {
        AbelianSandpileCell { height: 0 }
    }

    fn clone_cell(&self) -> (r: Self) {
        *self
    }

    fn random(rng: &mut Pcg32, grid_pos: GridPos) -> (r: Self) {
        let n = rng.next_bounded(5);
        AbelianSandpileCell { height: n as i32 }
    }

    fn update(&self, grid_view: GridView<'_, Self>) -> (r: Self) {
        let sand_in = Self::get_neighbor_sand(&grid_view);
        let height = if self.will_topple() {
            self.height - CRITICAL_HEIGHT + sand_in
        } else {
            self.height + sand_in
        };
        Self { height }
    }

    fn draw(&self) -> (r: Color) {
        self.colormap_1()
    }

    fn toggle(&mut self, target_pos: &GridPos, grid_pos: &GridPos) {
        if grid_pos.x == target_pos.x && grid_pos.y == target_pos.y {
            self.height = TOGGLE_HEIGHT;
        }
    }

    fn line_action(&mut self, target_pos: &GridPos, grid_pos: &GridPos, alive: bool) {
    }
}

impl HasColor for AbelianSandpileCell {
    open spec fn color_spec(&self) -> Seq<u8> {
        self.spec_draw()
    }

    fn draw(&self) -> (r: Color) {
        self.colormap_1()
    }
}

} // verus!
