//! The grid: two equal-size flat cell buffers ("current" and "scratch"),
//! the dimensions, and one boundary policy fixed at construction.
use vstd::prelude::*;

pub mod boundary;
pub mod grid_pos;
pub mod grid_view;

verus! {

use crate::cell::Cell;
use crate::grid::boundary::{Boundary, BoundaryTrait};
use crate::grid::grid_pos::{GridPos, pos_in_range, pos_index, pos_of_index};
use crate::grid::grid_pos::{lemma_pos_index_bounds, lemma_pos_of_index_in_range};
use crate::rng::Pcg32;

/// The first `k` cells of a row-major random fill of a `w` by `h` grid
/// started from generator state `rng0`, together with the generator state
/// left behind. The whole fill is a function of the seed and the
/// dimensions alone.
pub open spec fn fill_spec<C: Cell>(rng0: Pcg32, w: int, h: int, k: int) -> (Seq<C>, Pcg32)
    decreases k,
{
    if k <= 0 {
        (Seq::<C>::empty(), rng0)
    } else {
        let prev = fill_spec::<C>(rng0, w, h, k - 1);
        let next = C::rand_spec(prev.1, pos_of_index(k - 1, w));
        (prev.0.push(next.0), next.1)
    }
}

/// The mathematical content a rule may observe of a grid: its dimensions,
/// the *current* cell buffer, and the boundary policy. The scratch buffer
/// is deliberately absent: nothing computed from a `GridModel` can depend
/// on partially-written next-generation state.
pub ghost struct GridModel<C> {
    pub width: int,
    pub height: int,
    pub cells: Seq<C>,
    pub boundary: Boundary<C>,
}

impl<C> GridModel<C> {
    /// Well-formedness: positive dimensions that fit the coordinate type,
    /// a buffer of exactly `width * height` cells, and an index space that
    /// fits `usize`.
    pub open spec fn wf(self) -> bool {
        &&& 1 <= self.width <= i32::MAX
        &&& 1 <= self.height <= i32::MAX
        &&& self.width * self.height <= usize::MAX
        &&& self.cells.len() == self.width * self.height
    }

    /// Total lookup: what the boundary policy resolves `pos` to.
    pub open spec fn get(self, pos: GridPos) -> C {
        self.boundary.resolve_spec(pos, self.width, self.height, self.cells)
    }
}

/// A double-buffered 2-D field of cells. Between generations `cells` holds
/// the authoritative state; `scratch_cells` holds the previous generation's
/// stale state and is overwritten by the next sweep.
#[derive(Debug)]
pub struct Grid<C> {
    pub cells: Vec<C>,
    pub width: usize,
    pub height: usize,
    pub boundary: Boundary<C>,
    pub scratch_cells: Vec<C>,
}

impl<C> Grid<C> {
    /// The observable content of the current generation.
    pub open spec fn model(&self) -> GridModel<C> {
        GridModel {
            width: self.width as int,
            height: self.height as int,
            cells: self.cells@,
            boundary: self.boundary,
        }
    }

    /// The grid invariant: a well-formed model plus a scratch buffer of
    /// identical length.
    pub open spec fn wf(&self) -> bool {
        &&& self.model().wf()
        &&& self.scratch_cells@.len() == self.width * self.height
    }

    /// The strict flat index of `(x, y)`, or `None` for any position
    /// outside the stored rectangle. No boundary resolution is applied.
    pub fn grid_idx(&self, x: isize, y: isize) -> (r: Option<usize>)
        requires
            self.wf(),
        ensures
            r == if 0 <= x < self.width && 0 <= y < self.height {
                Some((x + y * self.width) as usize)
            } else {
                None::<usize>
            },
    {
        if 0 <= x && (x as usize) < self.width && 0 <= y && (y as usize) < self.height {
            proof {
                lemma_pos_index_bounds(
                    GridPos { x: x as i32, y: y as i32 },
                    self.width as int,
                    self.height as int,
                );
                assert(x + y * self.width == (x as i32) + (y as i32) * self.width);
            }
            Some((x as usize) + (y as usize) * self.width)
        } else {
            None
        }
    }

    /// The flat index of an in-range position.
    pub fn to_idx(&self, grid_pos: &GridPos) -> (r: usize)
        requires
            self.wf(),
            pos_in_range(*grid_pos, self.width as int, self.height as int),
        ensures
            r == pos_index(*grid_pos, self.width as int),
            r < self.cells@.len(),
    {
        proof {
            lemma_pos_index_bounds(*grid_pos, self.width as int, self.height as int);
        }
        grid_pos.x as usize + grid_pos.y as usize * self.width
    }

    /// Strict in-range lookup: `None` for any out-of-range position. Used
    /// by the boundary policies, which supply the fallback behavior.
    pub fn raw_get_cell_at(&self, grid_pos: &GridPos) -> (r: Option<&C>)
        requires
            self.wf(),
        ensures
            pos_in_range(*grid_pos, self.width as int, self.height as int) ==> (r matches Some(c)
                && *c == self.cells@[pos_index(*grid_pos, self.width as int)]),
            !pos_in_range(*grid_pos, self.width as int, self.height as int) ==> r is None,
    {
        proof {
            if pos_in_range(*grid_pos, self.width as int, self.height as int) {
                lemma_pos_index_bounds(*grid_pos, self.width as int, self.height as int);
            }
        }
        match self.grid_idx(grid_pos.x as isize, grid_pos.y as isize) {
            Some(idx) => Some(&self.cells[idx]),
            None => None,
        }
    }

    /// Total lookup through the boundary policy: defined for every integer
    /// position.
    pub fn get_cell_at(&self, grid_pos: GridPos) -> (r: &C)
        requires
            self.wf(),
        ensures
            *r == self.model().get(grid_pos),
    {
        self.boundary.grid_map(&grid_pos, self)
    }

    /// Write one cell of the scratch buffer; the current buffer, the
    /// dimensions and the boundary are untouched. Only the sweep driver
    /// calls this, always with in-range positions of its own making.
    pub fn set_scatch_cell_at(&mut self, grid_pos: GridPos, cell: C)
        requires
            old(self).wf(),
            pos_in_range(grid_pos, old(self).width as int, old(self).height as int),
        ensures
            final(self).scratch_cells@ == old(self).scratch_cells@.update(
                pos_index(grid_pos, old(self).width as int),
                cell,
            ),
            final(self).cells == old(self).cells,
            final(self).width == old(self).width,
            final(self).height == old(self).height,
            final(self).boundary == old(self).boundary,
            final(self).wf(),
    {
        let idx = self.to_idx(&grid_pos);
        self.scratch_cells[idx] = cell;
    }

    /// Exchange the two buffers in O(1); no cell is copied.
    pub fn swap(&mut self)
        requires
            old(self).wf(),
        ensures
            final(self).cells == old(self).scratch_cells,
            final(self).scratch_cells == old(self).cells,
            final(self).width == old(self).width,
            final(self).height == old(self).height,
            final(self).boundary == old(self).boundary,
            final(self).wf(),
    {
        core::mem::swap(&mut self.scratch_cells, &mut self.cells);
    }

    /// Every position of the rectangle exactly once, in row-major order
    /// (`y` outer, `x` inner).
    pub fn get_grid_pos_iter(&self) -> (r: Vec<GridPos>)
        requires
            self.wf(),
        ensures
            r@.len() == self.width * self.height,
            forall|i: int|
                0 <= i < r@.len() ==> r@[i] == pos_of_index(i, self.width as int),
            forall|i: int|
                0 <= i < r@.len() ==> pos_in_range(r@[i], self.width as int, self.height as int),
    {
        let ghost w = self.width as int;
        let ghost h = self.height as int;
        let mut result: Vec<GridPos> = Vec::new();
        let mut y: usize = 0;
        while y < self.height
            invariant
                self.wf(),
                y <= self.height,
                result@.len() == y * self.width,
                forall|i: int|
                    0 <= i < result@.len() ==> result@[i] == pos_of_index(i, self.width as int)
                        && pos_in_range(result@[i], self.width as int, self.height as int),
            decreases self.height - y,
        {
            let mut x: usize = 0;
            while x < self.width
                invariant
                    self.wf(),
                    y < self.height,
                    x <= self.width,
                    result@.len() == y * self.width + x,
                    forall|i: int|
                        0 <= i < result@.len() ==> result@[i] == pos_of_index(i, self.width as int)
                            && pos_in_range(result@[i], self.width as int, self.height as int),
                decreases self.width - x,
            {
                proof {
                    assert(y * self.width + x < self.width * self.height) by (nonlinear_arith)
                        requires
                            0 <= x < self.width,
                            0 <= y < self.height,
                    ;
                }
                let pos = GridPos::new(x as i32, y as i32);
                proof {
                    let i = result@.len() as int;
                    lemma_pos_of_index_in_range(i, self.width as int, self.height as int);
                    crate::grid::grid_pos::lemma_pos_index_injective(
                        pos_of_index(i, self.width as int),
                        pos,
                        self.width as int,
                        self.height as int,
                    );
                    assert(pos_index(pos, self.width as int) == x + y * self.width);
                }
                result.push(pos);
                x = x + 1;
            }
            y = y + 1;
            proof {
                assert((y - 1) * self.width + self.width == y * self.width) by (nonlinear_arith);
            }
        }
        proof {
            assert(self.height * self.width == self.width * self.height) by (nonlinear_arith);
        }
        result
    }
}

impl<C: Cell> Grid<C> {
    /// A grid with both buffers filled with the cell type's default value.
    /// The dimensions must be positive, fit the coordinate type, and span
    /// an index space that fits `usize`.
    pub fn new_empty(width: usize, height: usize, boundary: Boundary<C>) -> (r: Self)
        requires
            1 <= width <= i32::MAX,
            1 <= height <= i32::MAX,
            width * height <= usize::MAX,
        ensures
            r.wf(),
            r.width == width,
            r.height == height,
            r.boundary == boundary,
            forall|i: int| 0 <= i < r.cells@.len() ==> r.cells@[i] == C::spec_default(),
            forall|i: int|
                0 <= i < r.scratch_cells@.len() ==> r.scratch_cells@[i] == C::spec_default(),
    {
        let size = width * height;
        let mut cells: Vec<C> = Vec::new();
        while cells.len() < size
            invariant
                cells@.len() <= size,
                forall|i: int| 0 <= i < cells@.len() ==> cells@[i] == C::spec_default(),
            decreases size - cells@.len(),
        {
            cells.push(C::default_cell());
        }
        let mut scratch_cells: Vec<C> = Vec::new();
        while scratch_cells.len() < size
            invariant
                scratch_cells@.len() <= size,
                forall|i: int| 0 <= i < scratch_cells@.len() ==> scratch_cells@[i]
                    == C::spec_default(),
            decreases size - scratch_cells@.len(),
        {
            scratch_cells.push(C::default_cell());
        }
        Grid { cells, width, height, boundary, scratch_cells }
    }

    /// Reset every cell of the current buffer to the default value; the
    /// scratch buffer is untouched (the next sweep overwrites it anyway).
    pub fn clear(&mut self)
        requires
            old(self).wf(),
        ensures
            final(self).wf(),
            final(self).width == old(self).width,
            final(self).height == old(self).height,
            final(self).boundary == old(self).boundary,
            final(self).scratch_cells == old(self).scratch_cells,
            final(self).cells@.len() == old(self).cells@.len(),
            forall|i: int|
                0 <= i < final(self).cells@.len() ==> final(self).cells@[i] == C::spec_default(),
    {
        let mut i: usize = 0;
        while i < self.cells.len()
            invariant
                i <= self.cells@.len(),
                self.wf(),
                self.width == old(self).width,
                self.height == old(self).height,
                self.boundary == old(self).boundary,
                self.scratch_cells == old(self).scratch_cells,
                self.cells@.len() == old(self).cells@.len(),
                forall|j: int| 0 <= j < i ==> self.cells@[j] == C::spec_default(),
            decreases self.cells@.len() - i,
        {
            self.cells[i] = C::default_cell();
            i = i + 1;
        }
    }

    /// Fill the current buffer by one row-major pass of the rule's random
    /// constructor, threading the caller's generator through every cell.
    /// The resulting contents are a function of the generator state and
    /// the dimensions alone.
    pub fn randomize(&mut self, rng: &mut Pcg32)
        requires
            old(self).wf(),
        ensures
            final(self).wf(),
            final(self).width == old(self).width,
            final(self).height == old(self).height,
            final(self).boundary == old(self).boundary,
            final(self).scratch_cells == old(self).scratch_cells,
            ({
                let fs = fill_spec::<C>(
                    *old(rng),
                    old(self).width as int,
                    old(self).height as int,
                    old(self).width * old(self).height,
                );
                final(self).cells@ == fs.0 && *final(rng) == fs.1
            }),
    {
        let ghost w = self.width as int;
        let ghost h = self.height as int;
        let ghost rng0 = *rng;
        let ghost cells0 = self.cells@;
        let positions = self.get_grid_pos_iter();
        let mut i: usize = 0;
        while i < positions.len()
            invariant
                self.wf(),
                self.width as int == w,
                self.height as int == h,
                self.boundary == old(self).boundary,
                self.scratch_cells == old(self).scratch_cells,
                positions@.len() == w * h,
                forall|j: int|
                    0 <= j < positions@.len() ==> positions@[j] == pos_of_index(j, w)
                        && pos_in_range(positions@[j], w, h),
                i <= positions@.len(),
                cells0.len() == w * h,
                ({
                    let fs = fill_spec::<C>(rng0, w, h, i as int);
                    self.cells@ == fs.0 + cells0.skip(i as int) && *rng == fs.1
                }),
            decreases positions@.len() - i,
        {
            let grid_pos = positions[i];
            proof {
                lemma_pos_of_index_in_range(i as int, w, h);
            }
            let idx = self.to_idx(&grid_pos);
            let c = C::random(rng, grid_pos);
            let ghost fs_i = fill_spec::<C>(rng0, w, h, i as int);
            self.cells[idx] = c;
            proof {
                assert(fs_i.0.len() == i as int) by {
                    lemma_fill_spec_len::<C>(rng0, w, h, i as int);
                }
                assert((fs_i.0 + cells0.skip(i as int)).update(i as int, c) =~= fs_i.0.push(c)
                    + cells0.skip(i as int + 1));
            }
            i = i + 1;
        }
        proof {
            assert(self.cells@ =~= fill_spec::<C>(rng0, w, h, w * h).0 + cells0.skip(w * h));
            assert(cells0.skip(w * h) =~= Seq::<C>::empty());
            assert(fill_spec::<C>(rng0, w, h, w * h).0 + Seq::<C>::empty() =~= fill_spec::<C>(
                rng0,
                w,
                h,
                w * h,
            ).0);
        }
    }

    /// `new_empty` followed by one random fill of the current buffer from
    /// the caller's generator.
    pub fn new_random(width: usize, height: usize, boundary: Boundary<C>, rng: &mut Pcg32) -> (r:
        Self)
        requires
            1 <= width <= i32::MAX,
            1 <= height <= i32::MAX,
            width * height <= usize::MAX,
        ensures
            r.wf(),
            r.width == width,
            r.height == height,
            r.boundary == boundary,
            ({
                let fs = fill_spec::<C>(*old(rng), width as int, height as int, width * height);
                r.cells@ == fs.0 && *final(rng) == fs.1
            }),
            forall|i: int|
                0 <= i < r.scratch_cells@.len() ==> r.scratch_cells@[i] == C::spec_default(),
    {
        let mut result = Self::new_empty(width, height, boundary);
        result.randomize(rng);
        result
    }

    /// Render every cell into a caller-provided buffer of `4 * width *
    /// height` bytes: four bytes per cell, row-major, each cell
    /// contributing exactly its own color.
    pub fn draw(&self, screen: &mut Vec<u8>)
        requires
            self.wf(),
            old(screen)@.len() == 4 * self.cells@.len(),
        ensures
            final(screen)@.len() == old(screen)@.len(),
            forall|i: int|
                0 <= i < self.cells@.len() ==> final(screen)@.subrange(4 * i, 4 * i + 4)
                    == self.cells@[i].spec_draw(),
    {
        let total = screen.len();
        let mut i: usize = 0;
        while i < self.cells.len()
            invariant
                self.wf(),
                i <= self.cells@.len(),
                screen@.len() == 4 * self.cells@.len(),
                screen@.len() == total,
                forall|k: int|
                    0 <= k < 4 * i ==> screen@[k] == self.cells@[k / 4].spec_draw()[k % 4],
                forall|j: int| 0 <= j < i ==> self.cells@[j].spec_draw().len() == 4,
            decreases self.cells@.len() - i,
        {
            let cell = &self.cells[i];
            let color = cell.draw();
            screen[4 * i] = color[0];
            screen[4 * i + 1] = color[1];
            screen[4 * i + 2] = color[2];
            screen[4 * i + 3] = color[3];
            proof {
                assert forall|k: int| 0 <= k < 4 * (i + 1) implies screen@[k] == self.cells@[k
                    / 4].spec_draw()[k % 4] by {
                    vstd::arithmetic::div_mod::lemma_fundamental_div_mod_converse(
                        k,
                        4,
                        k / 4,
                        k % 4,
                    );
                    if k >= 4 * i {
                        vstd::arithmetic::div_mod::lemma_fundamental_div_mod_converse(
                            k,
                            4,
                            i as int,
                            k - 4 * i,
                        );
                    }
                }
            }
            i = i + 1;
        }
        proof {
            assert forall|j: int| 0 <= j < self.cells@.len() implies screen@.subrange(
                4 * j,
                4 * j + 4,
            ) == self.cells@[j].spec_draw() by {
                assert forall|b: int| 0 <= b < 4 implies screen@.subrange(4 * j, 4 * j + 4)[b]
                    == self.cells@[j].spec_draw()[b] by {
                    vstd::arithmetic::div_mod::lemma_fundamental_div_mod_converse(
                        4 * j + b,
                        4,
                        j,
                        b,
                    );
                }
                assert(screen@.subrange(4 * j, 4 * j + 4) =~= self.cells@[j].spec_draw());
            }
        }
    }
}

/// Randomization is deterministic for a fixed seed: two grids of
/// identical dimensions, filled from the same generator state, receive
/// identical contents — whatever their boundary policies or prior
/// contents, which the fill does not read at all.
pub proof fn lemma_randomize_deterministic<C: Cell>(
    g1: GridModel<C>,
    g2: GridModel<C>,
    rng: Pcg32,
)
    requires
        g1.width == g2.width,
        g1.height == g2.height,
    ensures
        fill_spec::<C>(rng, g1.width, g1.height, g1.width * g1.height) == fill_spec::<C>(
            rng,
            g2.width,
            g2.height,
            g2.width * g2.height,
        ),
{
}

/// The random fill of the first `k` positions has exactly `k` cells.
pub proof fn lemma_fill_spec_len<C: Cell>(rng0: Pcg32, w: int, h: int, k: int)
    requires
        k >= 0,
    ensures
        fill_spec::<C>(rng0, w, h, k).0.len() == k,
    decreases k,
{
    if k > 0 {
        lemma_fill_spec_len::<C>(rng0, w, h, k - 1);
    }
}

} // verus!
