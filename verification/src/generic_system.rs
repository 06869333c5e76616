//! The generic sweep driver: one synchronous generation per `update`
//! call, plus the fan-out of external stimuli (point toggles and drawn
//! lines) to every cell.
use vstd::prelude::*;

verus! {

use crate::cell::{Cell, System};
use crate::grid::{Grid, GridModel};
use crate::grid::boundary::lemma_resolve_in_range;
use crate::grid::grid_pos::{
    GridPos,
    pos_in_range,
    pos_index,
    pos_of_index,
    lemma_pos_index_bounds,
    lemma_pos_of_index_in_range,
    lemma_pos_index_injective,
};
use crate::grid::grid_view::GridView;
use crate::util::{bresenham_of, bresenham_points};

/// The next state of the cell at flat index `i`: a function of the prior
/// generation in its entirety, and of nothing else.
pub open spec fn next_cell_at<C: Cell>(m: GridModel<C>, i: int) -> C {
    m.cells[i].spec_update(pos_of_index(i, m.width), m)
}

/// The entire next generation, cell by cell.
pub open spec fn next_generation<C: Cell>(m: GridModel<C>) -> Seq<C> {
    Seq::new((m.width * m.height) as nat, |i: int| next_cell_at(m, i))
}

/// The current buffer after a point interaction at `target` has been
/// broadcast to every cell.
pub open spec fn toggled_cells<C: Cell>(cells: Seq<C>, w: int, target: GridPos) -> Seq<C> {
    Seq::new(cells.len(), |i: int| cells[i].spec_toggle(target, pos_of_index(i, w)))
}

/// The current buffer after one rasterized line point at `target` has
/// been broadcast to every cell.
pub open spec fn line_acted_cells<C: Cell>(
    cells: Seq<C>,
    w: int,
    target: GridPos,
    alive: bool,
) -> Seq<C> {
    Seq::new(cells.len(), |i: int| cells[i].spec_line_action(target, pos_of_index(i, w), alive))
}

/// Whether a rasterized point lies inside the stored `w` by `h`
/// rectangle.
pub open spec fn in_rect(p: (int, int), w: int, h: int) -> bool {
    &&& 0 <= p.0 < w
    &&& 0 <= p.1 < h
}

/// The number of leading rasterized points that lie inside the stored
/// rectangle: the drawn walk stops at the first point outside it.
pub open spec fn walk_prefix_len(pts: Seq<(int, int)>, w: int, h: int) -> int
    decreases pts.len(),
{
    if pts.len() == 0 {
        0
    } else if !in_rect(pts[0], w, h) {
        0
    } else {
        1 + walk_prefix_len(pts.skip(1), w, h)
    }
}

/// The buffer after broadcasting one `line_action` per point, in order.
pub open spec fn line_fold<C: Cell>(cells: Seq<C>, w: int, pts: Seq<(int, int)>, alive: bool) -> Seq<
    C,
>
    decreases pts.len(),
{
    if pts.len() == 0 {
        cells
    } else {
        line_fold(
            line_acted_cells(
                cells,
                w,
                GridPos { x: pts[0].0 as i32, y: pts[0].1 as i32 },
                alive,
            ),
            w,
            pts.skip(1),
            alive,
        )
    }
}

/// What `walk_prefix_len` picks out: every point before it is in range,
/// and the point at it (if any) is not.
pub proof fn lemma_walk_prefix_len(pts: Seq<(int, int)>, w: int, h: int)
    ensures
        0 <= walk_prefix_len(pts, w, h) <= pts.len(),
        forall|j: int|
            0 <= j < walk_prefix_len(pts, w, h) ==> #[trigger] in_rect(pts[j], w, h),
        walk_prefix_len(pts, w, h) < pts.len() ==> !in_rect(
            pts[walk_prefix_len(pts, w, h)],
            w,
            h,
        ),
    decreases pts.len(),
{
    if pts.len() > 0 && in_rect(pts[0], w, h) {
        lemma_walk_prefix_len(pts.skip(1), w, h);
        assert forall|j: int| 0 <= j < walk_prefix_len(pts, w, h) implies #[trigger] in_rect(
            pts[j],
            w,
            h,
        ) by {
            if j >= 1 {
                assert(pts[j] == pts.skip(1)[j - 1]);
            }
        }
        if walk_prefix_len(pts, w, h) < pts.len() {
            assert(pts[walk_prefix_len(pts, w, h)] == pts.skip(1)[walk_prefix_len(
                pts.skip(1),
                w,
                h,
            )]);
        }
    }
}

/// The scratch buffer obtained by performing the per-cell writes of one
/// sweep in an arbitrary visitation order: each visited position receives
/// the updated cell computed from the prior generation `m` alone.
pub open spec fn sweep_in_order<C: Cell>(
    m: GridModel<C>,
    scratch0: Seq<C>,
    order: Seq<GridPos>,
) -> Seq<C>
    decreases order.len(),
{
    if order.len() == 0 {
        scratch0
    } else {
        sweep_in_order(m, scratch0, order.drop_last()).update(
            pos_index(order.last(), m.width),
            m.get(order.last()).spec_update(order.last(), m),
        )
    }
}

/// Pointwise description of a partial sweep: a visited position holds its
/// updated cell; an unvisited one still holds the stale scratch value.
proof fn lemma_sweep_values<C: Cell>(m: GridModel<C>, scratch0: Seq<C>, order: Seq<GridPos>)
    requires
        m.wf(),
        scratch0.len() == m.width * m.height,
        forall|j: int|
            0 <= j < order.len() ==> pos_in_range(#[trigger] order[j], m.width, m.height),
    ensures
        sweep_in_order(m, scratch0, order).len() == scratch0.len(),
        forall|p: GridPos|
            pos_in_range(p, m.width, m.height) && #[trigger] order.contains(p)
                ==> sweep_in_order(m, scratch0, order)[pos_index(p, m.width)] == m.get(
                p,
            ).spec_update(p, m),
        forall|k: int|
            0 <= k < scratch0.len() && !order.contains(#[trigger] pos_of_index(k, m.width))
                ==> sweep_in_order(m, scratch0, order)[k] == scratch0[k],
    decreases order.len(),
{
    if order.len() > 0 {
        let rest = order.drop_last();
        let lst = order.last();
        lemma_sweep_values(m, scratch0, rest);
        lemma_pos_index_bounds(lst, m.width, m.height);
        assert forall|p: GridPos|
            pos_in_range(p, m.width, m.height) && #[trigger] order.contains(p) implies sweep_in_order(
            m,
            scratch0,
            order,
        )[pos_index(p, m.width)] == m.get(p).spec_update(p, m) by {
            lemma_pos_index_bounds(p, m.width, m.height);
            if p == lst {
            } else {
                let j = choose|j: int| 0 <= j < order.len() && order[j] == p;
                assert(rest[j] == p);
                assert(rest.contains(p));
                if pos_index(p, m.width) == pos_index(lst, m.width) {
                    lemma_pos_index_injective(p, lst, m.width, m.height);
                }
            }
        }
        assert forall|k: int|
            0 <= k < scratch0.len() && !order.contains(
                #[trigger] pos_of_index(k, m.width),
            ) implies sweep_in_order(m, scratch0, order)[k] == scratch0[k] by {
            let p = pos_of_index(k, m.width);
            assert(order[order.len() - 1] == lst);
            assert(order.contains(lst));
            if !rest.contains(p) {
                if k == pos_index(lst, m.width) {
                    lemma_pos_of_index_in_range(k, m.width, m.height);
                    lemma_pos_index_injective(p, lst, m.width, m.height);
                    assert(p == lst);
                }
            } else {
                let j = choose|j: int| 0 <= j < rest.len() && rest[j] == p;
                assert(order[j] == p);
                assert(order.contains(p));
            }
        }
    }
}

/// Order-independence of the sweep: any visitation order that stays in
/// range and covers every position of the rectangle produces the same
/// buffer — the next generation — independent of the order taken, of
/// repetition, and of the scratch buffer's stale contents. This is the
/// double-buffer discipline: every write is a function of the prior
/// generation alone, so the writes commute.
pub proof fn lemma_sweep_order_independent<C: Cell>(
    m: GridModel<C>,
    scratch0: Seq<C>,
    order: Seq<GridPos>,
)
    requires
        m.wf(),
        scratch0.len() == m.width * m.height,
        forall|j: int|
            0 <= j < order.len() ==> pos_in_range(#[trigger] order[j], m.width, m.height),
        forall|p: GridPos| pos_in_range(p, m.width, m.height) ==> #[trigger] order.contains(p),
    ensures
        sweep_in_order(m, scratch0, order) == next_generation(m),
{
    lemma_sweep_values(m, scratch0, order);
    assert forall|k: int| 0 <= k < scratch0.len() implies sweep_in_order(m, scratch0, order)[k]
        == next_cell_at(m, k) by {
        let p = pos_of_index(k, m.width);
        lemma_pos_of_index_in_range(k, m.width, m.height);
        assert(order.contains(p));
        lemma_resolve_in_range(m.boundary, p, m.width, m.height, m.cells);
    }
    assert(sweep_in_order(m, scratch0, order) =~= next_generation(m));
}

/// Corollary: two sweeps over the same prior generation agree, whatever
/// visitation orders they take and whatever stale contents their scratch
/// buffers start from.
pub proof fn lemma_sweep_any_two_orders<C: Cell>(
    m: GridModel<C>,
    scratch1: Seq<C>,
    scratch2: Seq<C>,
    order1: Seq<GridPos>,
    order2: Seq<GridPos>,
)
    requires
        m.wf(),
        scratch1.len() == m.width * m.height,
        scratch2.len() == m.width * m.height,
        forall|j: int|
            0 <= j < order1.len() ==> pos_in_range(#[trigger] order1[j], m.width, m.height),
        forall|j: int|
            0 <= j < order2.len() ==> pos_in_range(#[trigger] order2[j], m.width, m.height),
        forall|p: GridPos| pos_in_range(p, m.width, m.height) ==> #[trigger] order1.contains(p),
        forall|p: GridPos| pos_in_range(p, m.width, m.height) ==> #[trigger] order2.contains(p),
    ensures
        sweep_in_order(m, scratch1, order1) == sweep_in_order(m, scratch2, order2),
{
    lemma_sweep_order_independent(m, scratch1, order1);
    lemma_sweep_order_independent(m, scratch2, order2);
}

/// A marker value carried by some drivers; the engine gives it no
/// meaning.
pub struct GenericSystemData(pub i32);

/// The standard driver: owns one grid and sweeps it.
pub struct GenericSystem<C> {
    pub grid: Grid<C>,
}

impl<C: Cell> GenericSystem<C> {
    pub fn new(grid: Grid<C>) -> (r: Self)
        ensures
            r.grid == grid,
    {
        Self { grid }
    }
}

impl<C: Cell> System<C> for GenericSystem<C> {
    open spec fn sys_grid(&self) -> Grid<C> {
        self.grid
    }

    fn get_grid(&self) -> (r: &Grid<C>) {
        &self.grid
    }

    fn get_grid_mut(&mut self) -> (r: &mut Grid<C>) {
        &mut self.grid
    }

    fn update(&mut self) {
        let ghost m = self.grid.model();
        let positions = self.grid.get_grid_pos_iter();
        let mut i: usize = 0;
        while i < positions.len()
            invariant
                self.grid.wf(),
                self.grid.model() == m,
                m.wf(),
                positions@.len() == m.width * m.height,
                forall|j: int|
                    0 <= j < positions@.len() ==> positions@[j] == pos_of_index(j, m.width)
                        && pos_in_range(positions@[j], m.width, m.height),
                i <= positions@.len(),
                self.grid.scratch_cells@.len() == positions@.len(),
                forall|j: int|
                    0 <= j < i ==> self.grid.scratch_cells@[j] == next_cell_at(m, j),
            decreases positions@.len() - i,
        {
            let grid_pos = positions[i];
            proof {
                lemma_pos_of_index_in_range(i as int, m.width, m.height);
                lemma_resolve_in_range(m.boundary, grid_pos, m.width, m.height, m.cells);
            }
            let grid_view = GridView::new(grid_pos, &self.grid);
            let cell = self.grid.get_cell_at(grid_pos);
            let next = self.update_cell(grid_view, cell);
            self.grid.set_scatch_cell_at(grid_pos, next);
            i = i + 1;
        }
        self.grid.swap();
        proof {
            assert(self.grid.cells@ =~= next_generation(m));
        }
    }

    fn update_cell(&self, grid_view: GridView<'_, C>, cell: &C) -> (r: C) {
        cell.update(grid_view)
    }

    fn toggle(&mut self, x: isize, y: isize) -> (r: bool) {
        let ghost cells0 = self.grid.cells@;
        let ghost w = self.grid.width as int;
        let ghost h = self.grid.height as int;
        match self.grid.grid_idx(x, y) {
            Some(_i) => {
                let target_pos = GridPos::new(x as i32, y as i32);
                let positions = self.grid.get_grid_pos_iter();
                let mut k: usize = 0;
                while k < positions.len()
                    invariant
                        self.grid.wf(),
                        self.grid.width as int == w,
                        self.grid.height as int == h,
                        self.grid.boundary == old(self).grid.boundary,
                        self.grid.scratch_cells == old(self).grid.scratch_cells,
                        cells0.len() == w * h,
                        self.grid.cells@.len() == cells0.len(),
                        positions@.len() == w * h,
                        forall|j: int|
                            0 <= j < positions@.len() ==> positions@[j] == pos_of_index(j, w)
                                && pos_in_range(positions@[j], w, h),
                        k <= positions@.len(),
                        forall|j: int|
                            0 <= j < k ==> self.grid.cells@[j] == cells0[j].spec_toggle(
                                target_pos,
                                pos_of_index(j, w),
                            ),
                        forall|j: int| k <= j < cells0.len() ==> self.grid.cells@[j] == cells0[j],
                    decreases positions@.len() - k,
                {
                    let grid_pos = positions[k];
                    proof {
                        lemma_pos_of_index_in_range(k as int, w, h);
                    }
                    let idx = self.grid.to_idx(&grid_pos);
                    self.grid.cells[idx].toggle(&target_pos, &grid_pos);
                    k = k + 1;
                }
                proof {
                    assert(self.grid.cells@ =~= toggled_cells(cells0, w, target_pos));
                }
                true
            },
            None => false,
        }
    }

    fn line_action(&mut self, target_pos: GridPos, alive: bool) {
        let ghost cells0 = self.grid.cells@;
        let ghost w = self.grid.width as int;
        let ghost h = self.grid.height as int;
        let positions = self.grid.get_grid_pos_iter();
        let mut k: usize = 0;
        while k < positions.len()
            invariant
                self.grid.wf(),
                self.grid.width as int == w,
                self.grid.height as int == h,
                self.grid.boundary == old(self).grid.boundary,
                self.grid.scratch_cells == old(self).grid.scratch_cells,
                cells0.len() == w * h,
                self.grid.cells@.len() == cells0.len(),
                positions@.len() == w * h,
                forall|j: int|
                    0 <= j < positions@.len() ==> positions@[j] == pos_of_index(j, w)
                        && pos_in_range(positions@[j], w, h),
                k <= positions@.len(),
                forall|j: int|
                    0 <= j < k ==> self.grid.cells@[j] == cells0[j].spec_line_action(
                        target_pos,
                        pos_of_index(j, w),
                        alive,
                    ),
                forall|j: int| k <= j < cells0.len() ==> self.grid.cells@[j] == cells0[j],
            decreases positions@.len() - k,
        {
            let grid_pos = positions[k];
            proof {
                lemma_pos_of_index_in_range(k as int, w, h);
            }
            let idx = self.grid.to_idx(&grid_pos);
            self.grid.cells[idx].line_action(&target_pos, &grid_pos, alive);
            k = k + 1;
        }
        proof {
            assert(self.grid.cells@ =~= line_acted_cells(cells0, w, target_pos, alive));
        }
    }

    fn set_line(&mut self, x0: isize, y0: isize, x1: isize, y1: isize, alive: bool) {
        let ghost g0 = self.grid;
        let ghost w = self.grid.width as int;
        let ghost h = self.grid.height as int;
        let width = self.grid.width;
        let height = self.grid.height;
        let mut cx: isize = x0;
        if cx < 0 {
            cx = 0;
        }
        if cx > width as isize {
            cx = width as isize;
        }
        let mut cy: isize = y0;
        if cy < 0 {
            cy = 0;
        }
        if cy > height as isize {
            cy = height as isize;
        }
        let pts = bresenham_points(cx, cy, x1, y1);
        let ghost spts = bresenham_of(cx as int, cy as int, x1 as int, y1 as int);
        proof {
            assert(spts.len() == pts@.len());
            assert forall|j: int| 0 <= j < pts@.len() implies spts[j] == (
                pts@[j].0 as int,
                pts@[j].1 as int,
            ) by {
                assert(spts[j] == pts@.map_values(|p: (isize, isize)| (p.0 as int, p.1 as int))[j]);
            }
            lemma_walk_prefix_len(spts, w, h);
        }
        let ghost stop = walk_prefix_len(spts, w, h);
        let mut i: usize = 0;
        loop
            invariant_except_break
                i <= stop,
            invariant
                self.grid.wf(),
                self.grid.width as int == w,
                self.grid.height as int == h,
                self.grid.boundary == g0.boundary,
                self.grid.scratch_cells == g0.scratch_cells,
                i <= pts@.len(),
                0 <= stop <= pts@.len(),
                spts.len() == pts@.len(),
                forall|j: int|
                    0 <= j < pts@.len() ==> spts[j] == (pts@[j].0 as int, pts@[j].1 as int),
                forall|j: int| 0 <= j < stop ==> #[trigger] in_rect(spts[j], w, h),
                stop < pts@.len() ==> !in_rect(spts[stop], w, h),
                self.grid.cells@ == line_fold(g0.cells@, w, spts.take(i as int), alive),
            ensures
                i == stop,
                self.grid.cells@ == line_fold(g0.cells@, w, spts.take(stop), alive),
            decreases pts@.len() - i,
        {
            if i >= pts.len() {
                proof {
                    assert(i == stop);
                }
                break ;
            }
            let p = pts[i];
            match self.grid.grid_idx(p.0, p.1) {
                Some(_idx) => {
                    proof {
                        assert(in_rect(spts[i as int], w, h));
                        if i as int == stop {
                            assert(!in_rect(spts[stop], w, h));
                        }
                        assert(i < stop);
                    }
                    let target_pos = GridPos::new(p.0 as i32, p.1 as i32);
                    let ghost before = self.grid.cells@;
                    self.line_action(target_pos, alive);
                    proof {
                        lemma_line_fold_snoc(g0.cells@, w, spts, i as int, alive);
                    }
                    i = i + 1;
                },
                None => {
                    proof {
                        assert(!in_rect(spts[i as int], w, h));
                        if (i as int) < stop {
                            assert(in_rect(spts[i as int], w, h));
                        }
                        assert(i == stop);
                    }
                    break ;
                },
            }
        }
    }
}

/// Folding one more point is one more broadcast.
proof fn lemma_line_fold_snoc<C: Cell>(
    cells: Seq<C>,
    w: int,
    pts: Seq<(int, int)>,
    i: int,
    alive: bool,
)
    requires
        0 <= i < pts.len(),
    ensures
        line_fold(cells, w, pts.take(i + 1), alive) == line_acted_cells(
            line_fold(cells, w, pts.take(i), alive),
            w,
            GridPos { x: pts[i].0 as i32, y: pts[i].1 as i32 },
            alive,
        ),
    decreases i,
{
    let first = GridPos { x: pts[0].0 as i32, y: pts[0].1 as i32 };
    let acted0 = line_acted_cells(cells, w, first, alive);
    assert(pts.take(i + 1).len() == i + 1);
    assert(pts.take(i + 1)[0] == pts[0]);
    assert(line_fold(cells, w, pts.take(i + 1), alive) == line_fold(
        acted0,
        w,
        pts.take(i + 1).skip(1),
        alive,
    ));
    if i == 0 {
        assert(pts.take(1).skip(1).len() == 0);
        assert(line_fold(acted0, w, pts.take(1).skip(1), alive) == acted0);
        assert(pts.take(0).len() == 0);
        assert(line_fold(cells, w, pts.take(0), alive) == cells);
    } else {
        lemma_line_fold_snoc(acted0, w, pts.skip(1), i - 1, alive);
        assert(pts.take(i).len() == i);
        assert(pts.take(i)[0] == pts[0]);
        assert(line_fold(cells, w, pts.take(i), alive) == line_fold(
            acted0,
            w,
            pts.take(i).skip(1),
            alive,
        ));
        assert(pts.take(i + 1).skip(1) =~= pts.skip(1).take(i));
        assert(pts.take(i).skip(1) =~= pts.skip(1).take(i - 1));
        assert(pts.skip(1)[i - 1] == pts[i]);
    }
}

} // verus!
