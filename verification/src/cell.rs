//! The cell capability set: the polymorphic unit of simulation. Any type
//! implementing [`Cell`] can be driven by the generic engine. A cell's
//! content never stores its position or references to peers; all neighbor
//! information arrives transiently through a [`GridView`] at update time.
use vstd::prelude::*;

verus! {

use crate::grid::GridModel;
use crate::grid::grid_pos::GridPos;
use crate::grid::grid_view::GridView;
use crate::rng::Pcg32;

/// The capability set every concrete rule implements: a default state,
/// cloning, random construction at a position, the local update step,
/// rendering, and the two external-stimulus hooks.
///
/// Each executable capability is pinned to a specification function of the
/// same trait, so the engine's contracts can speak about whole generations.
/// In particular `spec_update` takes only the grid's *current* buffer (via
/// [`GridModel`]): the next state of a cell is by construction a function
/// of the prior generation, never of partially-written scratch state.
pub trait Cell: Sized {
    /// The default ("empty") state.
    spec fn spec_default() -> Self;

    /// The rendered color, as a four-byte sequence.
    spec fn spec_draw(&self) -> Seq<u8>;

    /// The cell drawn at `pos` from generator state `rng`, together with
    /// the successor generator state.
    spec fn rand_spec(rng: Pcg32, pos: GridPos) -> (Self, Pcg32);

    /// The next state of this cell, at origin `origin`, given the prior
    /// generation `m`.
    spec fn spec_update(&self, origin: GridPos, m: GridModel<Self>) -> Self;

    /// The state after a point interaction aimed at `target_pos` reaches
    /// the cell living at `grid_pos`.
    spec fn spec_toggle(&self, target_pos: GridPos, grid_pos: GridPos) -> Self;

    /// The state after one rasterized line point aimed at `target_pos`
    /// reaches the cell living at `grid_pos`.
    spec fn spec_line_action(&self, target_pos: GridPos, grid_pos: GridPos, alive: bool) -> Self;

    /// Produce the default state.
    fn default_cell() -> (r: Self)
        ensures
            r == Self::spec_default(),
    ;

    /// Produce an exact copy.
    fn clone_cell(&self) -> (r: Self)
        ensures
            r == *self,
    ;

    /// Construct a cell at `grid_pos` from the shared generator, advancing
    /// it. The result is a function of the generator state and the
    /// position alone, which makes bulk randomization deterministic for a
    /// fixed seed.
    fn random(rng: &mut Pcg32, grid_pos: GridPos) -> (r: Self)
        ensures
            (r, *final(rng)) == Self::rand_spec(*old(rng), grid_pos),
    ;

    /// Compute the next state from the neighborhood visible through
    /// `grid_view`.
    fn update(&self, grid_view: GridView<'_, Self>) -> (r: Self)
        requires
            grid_view.wf(),
        ensures
            r == self.spec_update(grid_view.origin, grid_view.model()),
    ;

    /// Render this cell as one color.
    fn draw(&self) -> (r: crate::util::Color)
        ensures
            r@ == self.spec_draw(),
    ;

    /// React to a point interaction broadcast to every cell.
    fn toggle(&mut self, target_pos: &GridPos, grid_pos: &GridPos)
        ensures
            *final(self) == old(self).spec_toggle(*target_pos, *grid_pos),
    ;

    /// React to one rasterized point of a drawn line broadcast to every
    /// cell.
    fn line_action(&mut self, target_pos: &GridPos, grid_pos: &GridPos, alive: bool)
        ensures
            *final(self) == old(self).spec_line_action(*target_pos, *grid_pos, alive),
    ;
}

/// A type that can render itself as one color.
pub trait HasColor {
    /// The rendered color, as a four-byte sequence.
    spec fn color_spec(&self) -> Seq<u8>;

    /// Render as one color.
    fn draw(&self) -> (r: crate::util::Color)
        ensures
            r@ == self.color_spec(),
    ;
}

/// The sweep driver: advances a whole grid one synchronous generation at a
/// time and fans external stimuli out to every cell.
pub trait System<C: Cell>: Sized {
    /// The grid this driver owns.
    spec fn sys_grid(&self) -> crate::grid::Grid<C>;

    fn get_grid(&self) -> (r: &crate::grid::Grid<C>)
        ensures
            *r == self.sys_grid(),
    ;

    fn get_grid_mut(&mut self) -> (r: &mut crate::grid::Grid<C>)
        ensures
            *r == old(self).sys_grid(),
            final(self).sys_grid() == *final(r),
    ;

    /// One synchronous generation: every cell of the next generation is a
    /// function of the *entire* prior generation; no cell's update can
    /// observe any already-computed next-generation value. Afterwards the
    /// buffers are swapped in O(1), so the buffer lengths are invariant
    /// across any number of generations.
    fn update(&mut self)
        requires
            old(self).sys_grid().wf(),
        ensures
            final(self).sys_grid().wf(),
            final(self).sys_grid().width == old(self).sys_grid().width,
            final(self).sys_grid().height == old(self).sys_grid().height,
            final(self).sys_grid().boundary == old(self).sys_grid().boundary,
            final(self).sys_grid().cells@ == crate::generic_system::next_generation(
                old(self).sys_grid().model(),
            ),
            final(self).sys_grid().scratch_cells@ == old(self).sys_grid().cells@,
    ;

    /// The next state of one cell, computed through its view of the prior
    /// generation.
    fn update_cell(&self, grid_view: crate::grid::grid_view::GridView<'_, C>, cell: &C) -> (r: C)
        requires
            grid_view.wf(),
        ensures
            r == cell.spec_update(grid_view.origin, grid_view.model()),
    ;

    /// Broadcast a point interaction at `(x, y)` to every cell of the
    /// current buffer, provided `(x, y)` lies strictly inside the stored
    /// rectangle; out-of-range positions are ignored. Returns whether the
    /// position was accepted.
    fn toggle(&mut self, x: isize, y: isize) -> (r: bool)
        requires
            old(self).sys_grid().wf(),
        ensures
            ({
                let g0 = old(self).sys_grid();
                let g1 = final(self).sys_grid();
                let w = g0.width as int;
                let h = g0.height as int;
                &&& r == (0 <= x < w && 0 <= y < h)
                &&& g1.wf()
                &&& g1.width == g0.width
                &&& g1.height == g0.height
                &&& g1.boundary == g0.boundary
                &&& g1.scratch_cells == g0.scratch_cells
                &&& (r ==> g1.cells@ == crate::generic_system::toggled_cells(
                    g0.cells@,
                    w,
                    GridPos { x: x as i32, y: y as i32 },
                ))
                &&& (!r ==> g1.cells == g0.cells)
            }),
    ;

    /// Broadcast one rasterized line point at `target_pos` to every cell
    /// of the current buffer.
    fn line_action(&mut self, target_pos: GridPos, alive: bool)
        requires
            old(self).sys_grid().wf(),
        ensures
            ({
                let g0 = old(self).sys_grid();
                let g1 = final(self).sys_grid();
                &&& g1.wf()
                &&& g1.width == g0.width
                &&& g1.height == g0.height
                &&& g1.boundary == g0.boundary
                &&& g1.scratch_cells == g0.scratch_cells
                &&& g1.cells@ == crate::generic_system::line_acted_cells(
                    g0.cells@,
                    g0.width as int,
                    target_pos,
                    alive,
                )
            }),
    ;

    /// Draw a line: clamp the start point into `[0, width] x [0, height]`
    /// (one past the last cell is tolerated), rasterize toward the
    /// unclamped end point, and broadcast one `line_action` per visited
    /// point while the walk stays inside the stored rectangle; the walk
    /// stops at the first point outside it.
    fn set_line(&mut self, x0: isize, y0: isize, x1: isize, y1: isize, alive: bool)
        requires
            old(self).sys_grid().wf(),
            -0x8000_0000 <= x0 <= 0x7FFF_FFFF,
            -0x8000_0000 <= y0 <= 0x7FFF_FFFF,
            -0x8000_0000 <= x1 <= 0x7FFF_FFFF,
            -0x8000_0000 <= y1 <= 0x7FFF_FFFF,
        ensures
            ({
                let g0 = old(self).sys_grid();
                let g1 = final(self).sys_grid();
                let w = g0.width as int;
                let h = g0.height as int;
                let pts = crate::util::bresenham_of(
                    crate::grid::boundary::clamp_spec(x0 as int, 0, w),
                    crate::grid::boundary::clamp_spec(y0 as int, 0, h),
                    x1 as int,
                    y1 as int,
                );
                let walked = pts.take(crate::generic_system::walk_prefix_len(pts, w, h));
                &&& g1.wf()
                &&& g1.width == g0.width
                &&& g1.height == g0.height
                &&& g1.boundary == g0.boundary
                &&& g1.scratch_cells == g0.scratch_cells
                &&& g1.cells@ == crate::generic_system::line_fold(g0.cells@, w, walked, alive)
            }),
    ;
}

} // verus!
