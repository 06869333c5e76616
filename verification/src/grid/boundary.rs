//! Boundary policies: the sole authority for turning an arbitrary integer
//! position into a stored cell or a fallback value. All three policies are
//! total over every integer position.
use vstd::prelude::*;

verus! {

use crate::grid::Grid;
use crate::grid::grid_pos::{GridInt, GridPos, pos_in_range, pos_index};
use crate::util::modulo;

/// Clamping of a single coordinate into `[lo, hi]`.
pub open spec fn clamp_spec(a: int, lo: int, hi: int) -> int {
    if a < lo {
        lo
    } else if a > hi {
        hi
    } else {
        a
    }
}

/// The position a periodic boundary resolves to: both axes wrapped by the
/// mathematical (non-negative) modulo.
pub open spec fn wrap_pos(pos: GridPos, w: int, h: int) -> GridPos {
    GridPos { x: (pos.x as int % w) as GridInt, y: (pos.y as int % h) as GridInt }
}

/// The position a free boundary resolves to: each axis clamped
/// independently into the valid range.
pub open spec fn clamp_pos(pos: GridPos, w: int, h: int) -> GridPos {
    GridPos {
        x: clamp_spec(pos.x as int, 0, w - 1) as GridInt,
        y: clamp_spec(pos.y as int, 0, h - 1) as GridInt,
    }
}

/// A boundary policy resolves any position to a cell value, given the
/// dimensions and the current cell buffer.
pub trait BoundaryTrait<C>: Sized {
    /// The value this policy resolves `pos` to.
    spec fn resolve_spec(&self, pos: GridPos, w: int, h: int, cells: Seq<C>) -> C;

    /// Resolve a position to a reference: either into the grid's cell
    /// buffer or to a policy-held sentinel.
    fn grid_map<'a>(&'a self, grid_pos: &GridPos, grid: &'a Grid<C>) -> (r: &'a C)
        requires
            grid.wf(),
        ensures
            *r == self.resolve_spec(
                *grid_pos,
                grid.width as int,
                grid.height as int,
                grid.cells@,
            ),
    ;
}

/// Toroidal topology: wraps both axes modulo the grid dimensions.
#[derive(Clone, Copy, PartialEq, Eq, Structural, Debug)]
pub struct PeriodicBoundary;

impl<C> BoundaryTrait<C> for PeriodicBoundary {
    open spec fn resolve_spec(&self, pos: GridPos, w: int, h: int, cells: Seq<C>) -> C {
        cells[pos_index(wrap_pos(pos, w, h), w)]
    }

    fn grid_map<'a>(&'a self, grid_pos: &GridPos, grid: &'a Grid<C>) -> (r: &'a C) {
        let width = grid.width as GridInt;
        let height = grid.height as GridInt;
        let new_grid_pos = GridPos::new(modulo(grid_pos.x, width), modulo(grid_pos.y, height));
        proof {
            crate::grid::grid_pos::lemma_pos_index_bounds(
                wrap_pos(*grid_pos, grid.width as int, grid.height as int),
                grid.width as int,
                grid.height as int,
            );
        }
        grid.raw_get_cell_at(&new_grid_pos).unwrap()
    }
}

/// An inert border: any out-of-range position resolves to a fixed sentinel
/// cell held by the policy itself, never part of either buffer.
#[derive(Clone, Copy, PartialEq, Eq, Structural, Debug)]
pub struct ConstantBoundary<C>(pub C);

impl<C: crate::cell::Cell> ConstantBoundary<C> {
    /// A constant boundary whose sentinel is the cell type's default.
    pub fn empty() -> (r: Self)
        ensures
            r.0 == C::spec_default(),
    {
        ConstantBoundary(C::default_cell())
    }
}

impl<C> BoundaryTrait<C> for ConstantBoundary<C> {
    open spec fn resolve_spec(&self, pos: GridPos, w: int, h: int, cells: Seq<C>) -> C {
        if pos_in_range(pos, w, h) {
            cells[pos_index(pos, w)]
        } else {
            self.0
        }
    }

    fn grid_map<'a>(&'a self, grid_pos: &GridPos, grid: &'a Grid<C>) -> (r: &'a C) {
        match grid.raw_get_cell_at(grid_pos) {
            Some(cell) => cell,
            None => &self.0,
        }
    }
}

/// Edge replication: clamps each coordinate into the valid range before
/// indexing.
#[derive(Clone, Copy, PartialEq, Eq, Structural, Debug)]
pub struct FreeBoundary;

impl<C> BoundaryTrait<C> for FreeBoundary {
    open spec fn resolve_spec(&self, pos: GridPos, w: int, h: int, cells: Seq<C>) -> C {
        cells[pos_index(clamp_pos(pos, w, h), w)]
    }

    fn grid_map<'a>(&'a self, grid_pos: &GridPos, grid: &'a Grid<C>) -> (r: &'a C) {
        let mut x = grid_pos.x;
        if x < 0 {
            x = 0;
        }
        if x > (grid.width - 1) as GridInt {
            x = (grid.width - 1) as GridInt;
        }
        let mut y = grid_pos.y;
        if y < 0 {
            y = 0;
        }
        if y > (grid.height - 1) as GridInt {
            y = (grid.height - 1) as GridInt;
        }
        let new_grid_pos = GridPos::new(x, y);
        proof {
            crate::grid::grid_pos::lemma_pos_index_bounds(
                clamp_pos(*grid_pos, grid.width as int, grid.height as int),
                grid.width as int,
                grid.height as int,
            );
        }
        grid.raw_get_cell_at(&new_grid_pos).unwrap()
    }
}

/// The closed set of boundary policies, selected once at grid construction.
#[derive(Clone, Copy, PartialEq, Eq, Structural, Debug)]
pub enum Boundary<C> {
    PeriodicBoundary(PeriodicBoundary),
    ConstantBoundary(ConstantBoundary<C>),
    FreeBoundary(FreeBoundary),
}

impl<C> BoundaryTrait<C> for Boundary<C> {
    open spec fn resolve_spec(&self, pos: GridPos, w: int, h: int, cells: Seq<C>) -> C {
        match self {
            Boundary::PeriodicBoundary(b) => b.resolve_spec(pos, w, h, cells),
            Boundary::ConstantBoundary(b) => b.resolve_spec(pos, w, h, cells),
            Boundary::FreeBoundary(b) => b.resolve_spec(pos, w, h, cells),
        }
    }

    fn grid_map<'a>(&'a self, grid_pos: &GridPos, grid: &'a Grid<C>) -> (r: &'a C) {
        match self {
            Boundary::PeriodicBoundary(b) => b.grid_map(grid_pos, grid),
            Boundary::ConstantBoundary(b) => b.grid_map(grid_pos, grid),
            Boundary::FreeBoundary(b) => b.grid_map(grid_pos, grid),
        }
    }
}

/// Every boundary policy resolves an in-range position to the cell stored
/// at that position.
pub proof fn lemma_resolve_in_range<C>(b: Boundary<C>, pos: GridPos, w: int, h: int, cells: Seq<C>)
    requires
        1 <= w <= i32::MAX,
        1 <= h <= i32::MAX,
        pos_in_range(pos, w, h),
    ensures
        b.resolve_spec(pos, w, h, cells) == cells[pos_index(pos, w)],
{
    vstd::arithmetic::div_mod::lemma_small_mod(pos.x as nat, w as nat);
    vstd::arithmetic::div_mod::lemma_small_mod(pos.y as nat, h as nat);
    assert(wrap_pos(pos, w, h) == pos);
    assert(clamp_pos(pos, w, h) == pos);
}

/// Boundary totality: for every integer position whatsoever, every policy
/// resolves to either a cell stored at some in-range position or, for the
/// constant policy out of range, to its sentinel — never to anything
/// else.
pub proof fn lemma_boundary_total<C>(b: Boundary<C>, pos: GridPos, w: int, h: int, cells: Seq<C>)
    requires
        1 <= w <= i32::MAX,
        1 <= h <= i32::MAX,
        cells.len() == w * h,
    ensures
        (exists|q: GridPos|
            pos_in_range(q, w, h) && b.resolve_spec(pos, w, h, cells) == cells[pos_index(q, w)])
            || (b matches Boundary::ConstantBoundary(cb) && b.resolve_spec(pos, w, h, cells)
            == cb.0),
{
    match b {
        Boundary::PeriodicBoundary(_) => {
            vstd::arithmetic::div_mod::lemma_mod_bound(pos.x as int, w);
            vstd::arithmetic::div_mod::lemma_mod_bound(pos.y as int, h);
            let q = wrap_pos(pos, w, h);
            assert(pos_in_range(q, w, h) && b.resolve_spec(pos, w, h, cells) == cells[pos_index(
                q,
                w,
            )]);
        },
        Boundary::ConstantBoundary(_) => {
            if pos_in_range(pos, w, h) {
                assert(pos_in_range(pos, w, h) && b.resolve_spec(pos, w, h, cells)
                    == cells[pos_index(pos, w)]);
            }
        },
        Boundary::FreeBoundary(_) => {
            let q = clamp_pos(pos, w, h);
            assert(pos_in_range(q, w, h) && b.resolve_spec(pos, w, h, cells) == cells[pos_index(
                q,
                w,
            )]);
        },
    }
}

/// Periodic wrap: two positions congruent modulo the dimensions resolve
/// to the same cell; in particular `x == -1` behaves as `x == w - 1`.
pub proof fn lemma_periodic_wrap<C>(p: GridPos, q: GridPos, w: int, h: int, cells: Seq<C>)
    requires
        1 <= w <= i32::MAX,
        1 <= h <= i32::MAX,
        p.x as int % w == q.x as int % w,
        p.y as int % h == q.y as int % h,
    ensures
        PeriodicBoundary.resolve_spec(p, w, h, cells) == PeriodicBoundary.resolve_spec(
            q,
            w,
            h,
            cells,
        ),
{
}

/// Constant-boundary isolation, outward: an out-of-range lookup returns
/// the sentinel whatever the stored cells hold, so mutating any in-range
/// cell never changes it.
pub proof fn lemma_constant_out_of_range_inert<C>(
    s: C,
    pos: GridPos,
    w: int,
    h: int,
    cells1: Seq<C>,
    cells2: Seq<C>,
)
    requires
        !pos_in_range(pos, w, h),
    ensures
        ConstantBoundary(s).resolve_spec(pos, w, h, cells1) == s,
        ConstantBoundary(s).resolve_spec(pos, w, h, cells1) == ConstantBoundary(s).resolve_spec(
            pos,
            w,
            h,
            cells2,
        ),
{
}

/// Constant-boundary isolation, inward: an in-range lookup reads the
/// stored cell whatever the sentinel, so changing the sentinel never
/// changes any in-range lookup.
pub proof fn lemma_constant_in_range_independent<C>(
    s1: C,
    s2: C,
    pos: GridPos,
    w: int,
    h: int,
    cells: Seq<C>,
)
    requires
        pos_in_range(pos, w, h),
    ensures
        ConstantBoundary(s1).resolve_spec(pos, w, h, cells) == cells[pos_index(pos, w)],
        ConstantBoundary(s1).resolve_spec(pos, w, h, cells) == ConstantBoundary(s2).resolve_spec(
            pos,
            w,
            h,
            cells,
        ),
{
}

/// Free-boundary clamping: any position resolves exactly as its clamped,
/// in-range image does; in particular `x >= w` behaves as `x == w - 1`.
pub proof fn lemma_free_clamp<C>(pos: GridPos, w: int, h: int, cells: Seq<C>)
    requires
        1 <= w <= i32::MAX,
        1 <= h <= i32::MAX,
    ensures
        pos_in_range(clamp_pos(pos, w, h), w, h),
        FreeBoundary.resolve_spec(pos, w, h, cells) == FreeBoundary.resolve_spec(
            clamp_pos(pos, w, h),
            w,
            h,
            cells,
        ),
{
    assert(clamp_pos(clamp_pos(pos, w, h), w, h) == clamp_pos(pos, w, h));
}

} // verus!
