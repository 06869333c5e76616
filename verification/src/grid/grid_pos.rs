//! The 2-D integer coordinate type used throughout the engine.
use vstd::prelude::*;

verus! {

/// The signed coordinate type of the grid.
pub type GridInt = i32;

/// A 2-D integer coordinate on (or around) a grid. A position carries no
/// bounds constraint of its own; validity is always relative to a grid's
/// dimensions and boundary policy.
#[derive(Clone, Copy, Default, PartialEq, Eq, Structural, Debug, Hash)]
pub struct GridPos {
    pub x: GridInt,
    pub y: GridInt,
}

impl GridPos {
    pub fn new(x: GridInt, y: GridInt) -> (r: Self)
        ensures
            r == (GridPos { x: x, y: y }),
    {
        GridPos { x, y }
    }
}

/// Whether a position lies inside the stored `w` by `h` rectangle.
pub open spec fn pos_in_range(pos: GridPos, w: int, h: int) -> bool {
    &&& 0 <= pos.x < w
    &&& 0 <= pos.y < h
}

/// The row-major flat index of an in-range position.
pub open spec fn pos_index(pos: GridPos, w: int) -> int {
    pos.x + pos.y * w
}

/// The in-range position holding a given row-major flat index.
pub open spec fn pos_of_index(i: int, w: int) -> GridPos {
    GridPos { x: (i % w) as GridInt, y: (i / w) as GridInt }
}

/// An in-range position's flat index lies inside the buffer.
pub proof fn lemma_pos_index_bounds(pos: GridPos, w: int, h: int)
    requires
        w >= 1,
        h >= 1,
        pos_in_range(pos, w, h),
    ensures
        0 <= pos_index(pos, w) < w * h,
{
    assert(pos.x + pos.y * w < w * h) by (nonlinear_arith)
        requires
            0 <= pos.x < w,
            0 <= pos.y < h,
    ;
    assert(pos.x + pos.y * w >= 0) by (nonlinear_arith)
        requires
            0 <= pos.x,
            0 <= pos.y,
            w >= 1,
    ;
}

/// Flat indices and in-range positions are in bijection: decoding an index
/// yields an in-range position that encodes back to the same index.
pub proof fn lemma_pos_of_index_in_range(i: int, w: int, h: int)
    requires
        1 <= w <= i32::MAX,
        1 <= h <= i32::MAX,
        0 <= i < w * h,
    ensures
        pos_in_range(pos_of_index(i, w), w, h),
        pos_index(pos_of_index(i, w), w) == i,
{
    vstd::arithmetic::div_mod::lemma_fundamental_div_mod(i, w);
    vstd::arithmetic::div_mod::lemma_mod_bound(i, w);
    assert(0 <= i / w < h) by (nonlinear_arith)
        requires
            w >= 1,
            h >= 1,
            0 <= i < w * h,
            i == w * (i / w) + i % w,
            0 <= i % w < w,
    ;
    assert(pos_of_index(i, w).x == i % w);
    assert(pos_of_index(i, w).y == i / w);
    assert(i % w + (i / w) * w == i) by (nonlinear_arith)
        requires
            i == w * (i / w) + i % w,
    ;
}

/// Two distinct in-range positions never share a flat index.
pub proof fn lemma_pos_index_injective(p: GridPos, q: GridPos, w: int, h: int)
    requires
        w >= 1,
        h >= 1,
        pos_in_range(p, w, h),
        pos_in_range(q, w, h),
        pos_index(p, w) == pos_index(q, w),
    ensures
        p == q,
{
    assert(p.x == q.x && p.y == q.y) by (nonlinear_arith)
        requires
            0 <= p.x < w,
            0 <= q.x < w,
            0 <= p.y,
            0 <= q.y,
            p.x + p.y * w == q.x + q.y * w,
    ;
}

} // verus!
