//! Small shared helpers: the mathematical modulo, stencil enumeration, the
//! color type, seed generation, and line rasterization.
use vstd::prelude::*;

verus! {

use crate::grid::grid_pos::{GridInt, GridPos};

/// One cell's rendered color: four bytes, RGBA-like.
pub type Color = [u8; 4];

/// The mathematical modulo: a non-negative remainder even for negative
/// `lhs` (unlike Rust's truncating `%`).
pub fn modulo(lhs: GridInt, rhs: GridInt) -> (r: GridInt)
    requires
        rhs >= 1,
    ensures
        r == lhs as int % rhs as int,
{
    if lhs >= 0 {
        lhs % rhs
    } else {
        let k = -1 - lhs;
        let s = k % rhs;
        proof {
            vstd::arithmetic::div_mod::lemma_fundamental_div_mod(k as int, rhs as int);
            vstd::arithmetic::div_mod::lemma_mod_bound(k as int, rhs as int);
            assert(lhs as int == (-(k as int / rhs as int) - 1) * (rhs as int) + (rhs - 1 - s))
                by (nonlinear_arith)
                requires
                    k as int == (rhs as int) * (k as int / rhs as int) + (k as int % rhs as int),
                    s == k as int % rhs as int,
                    lhs as int == -1 - k as int,
            ;
            vstd::arithmetic::div_mod::lemma_fundamental_div_mod_converse(
                lhs as int,
                rhs as int,
                -(k as int / rhs as int) - 1,
                rhs - 1 - s,
            );
        }
        rhs - 1 - s
    }
}

/// The relative offsets of a `width` by `height` stencil centered on the
/// origin, row-major. Both extents must be odd so the stencil has a
/// center.
pub fn stencil_coords(width: GridInt, height: GridInt) -> (r: Vec<GridPos>)
    requires
        1 <= width,
        1 <= height,
        width % 2 == 1,
        height % 2 == 1,
        width * height <= usize::MAX,
    ensures
        r@.len() == width * height,
        forall|dy: int, dx: int|
            0 <= dy < height && 0 <= dx < width ==> #[trigger] r@[dy * width + dx] == (GridPos {
                x: (dx - width / 2) as GridInt,
                y: (dy - height / 2) as GridInt,
            }),
{
    let ghost w = width as int;
    let ghost h = height as int;
    let mut result: Vec<GridPos> = Vec::new();
    let mut dy: GridInt = 0;
    while dy < height
        invariant
            1 <= w <= i32::MAX,
            1 <= h <= i32::MAX,
            width as int == w,
            height as int == h,
            w * h <= usize::MAX,
            0 <= dy <= h,
            result@.len() == dy * w,
            forall|k: int|
                0 <= k < result@.len() ==> #[trigger] result@[k] == (GridPos {
                    x: (k % w - w / 2) as GridInt,
                    y: (k / w - h / 2) as GridInt,
                }),
        decreases h - dy,
    {
        let mut dx: GridInt = 0;
        while dx < width
            invariant
                1 <= w <= i32::MAX,
                1 <= h <= i32::MAX,
                width as int == w,
                height as int == h,
                w * h <= usize::MAX,
                0 <= dy < h,
                0 <= dx <= w,
                result@.len() == dy * w + dx,
                forall|k: int|
                    0 <= k < result@.len() ==> #[trigger] result@[k] == (GridPos {
                        x: (k % w - w / 2) as GridInt,
                        y: (k / w - h / 2) as GridInt,
                    }),
            decreases w - dx,
        {
            proof {
                assert(dy * w + dx < (dy + 1) * w <= h * w) by (nonlinear_arith)
                    requires
                        0 <= dx < w,
                        0 <= dy < h,
                ;
                assert(h * w == w * h) by (nonlinear_arith);
                vstd::arithmetic::div_mod::lemma_fundamental_div_mod_converse(
                    dy * w + dx,
                    w,
                    dy as int,
                    dx as int,
                );
            }
            result.push(GridPos::new(dx - width / 2, dy - height / 2));
            dx = dx + 1;
        }
        dy = dy + 1;
        proof {
            assert((dy - 1) * w + w == dy * w) by (nonlinear_arith);
        }
    }
    proof {
        assert(h * w == w * h) by (nonlinear_arith);
        assert forall|dy2: int, dx2: int| 0 <= dy2 < h && 0 <= dx2 < w implies #[trigger] result@[dy2
            * w + dx2] == (GridPos { x: (dx2 - w / 2) as GridInt, y: (dy2 - h / 2) as GridInt }) by {
            assert(0 <= dy2 * w + dx2 < h * w) by (nonlinear_arith)
                requires
                    0 <= dx2 < w,
                    0 <= dy2 < h,
            ;
            vstd::arithmetic::div_mod::lemma_fundamental_div_mod_converse(
                dy2 * w + dx2,
                w,
                dy2,
                dx2,
            );
        }
    }
    result
}

/// The sequence of integer points that Bresenham rasterization visits on
/// the way from `(x0, y0)` to `(x1, y1)`, both endpoints included.
pub uninterp spec fn bresenham_of(x0: int, y0: int, x1: int, y1: int) -> Seq<(int, int)>;

/// Relies on line_drawing's `Bresenham` iterator: it yields the rasterized
/// points of the segment from start to end, both inclusive, beginning with
/// the start point; the result depends on the endpoints alone.
#[verifier::external_body]
pub(crate) fn bresenham_points(x0: isize, y0: isize, x1: isize, y1: isize) -> (r: Vec<
    (isize, isize),
>)
    requires
        -0x1_0000_0000 <= x0 <= 0x1_0000_0000,
        -0x1_0000_0000 <= y0 <= 0x1_0000_0000,
        -0x1_0000_0000 <= x1 <= 0x1_0000_0000,
        -0x1_0000_0000 <= y1 <= 0x1_0000_0000,
    ensures
        r@.map_values(|p: (isize, isize)| (p.0 as int, p.1 as int)) == bresenham_of(
            x0 as int,
            y0 as int,
            x1 as int,
            y1 as int,
        ),
        r@.len() >= 1,
        r@[0] == (x0, y0),
{
    line_drawing::Bresenham::new((x0, y0), (x1, y1)).collect()
}

/// Relies on getrandom::getrandom: fills the buffer with entropy from the
/// operating system. Nothing is promised of the contents; the result says
/// whether the source succeeded.
#[verifier::external_body]
fn fill_entropy(buf: &mut Vec<u8>) -> (ok: bool)
    ensures
        final(buf)@.len() == old(buf)@.len(),
{
    getrandom::getrandom(buf.as_mut_slice()).is_ok()
}

/// The little-endian 64-bit value stored at `bytes[start .. start + 8]`.
pub open spec fn le_u64_at(bytes: Seq<u8>, start: int) -> u64 {
    (bytes[start] as u64) | ((bytes[start + 1] as u64) << 8u64) | ((bytes[start + 2] as u64)
        << 16u64) | ((bytes[start + 3] as u64) << 24u64) | ((bytes[start + 4] as u64) << 32u64) | (
    (bytes[start + 5] as u64) << 40u64) | ((bytes[start + 6] as u64) << 48u64) | ((bytes[start
        + 7] as u64) << 56u64)
}

/// Read eight bytes as a little-endian 64-bit integer.
pub fn read_u64_le(bytes: &Vec<u8>, start: usize) -> (r: u64)
    requires
        start + 8 <= bytes@.len(),
    ensures
        r == le_u64_at(bytes@, start as int),
{
    let n = bytes.len();
    proof {
        assert(start + 8 <= n);
    }
    (bytes[start] as u64) | ((bytes[start + 1] as u64) << 8u64) | ((bytes[start + 2] as u64)
        << 16u64) | ((bytes[start + 3] as u64) << 24u64) | ((bytes[start + 4] as u64) << 32u64) | (
    (bytes[start + 5] as u64) << 40u64) | ((bytes[start + 6] as u64) << 48u64) | ((bytes[start
        + 7] as u64) << 56u64)
}

/// Draw a fresh two-word seed from the operating system's entropy source.
/// Each call draws fresh entropy; `None` only when the source fails.
pub fn generate_seed() -> (r: Option<(u64, u64)>) {
    let mut buf: Vec<u8> = Vec::new();
    let mut i: usize = 0;
    while i < 16
        invariant
            buf@.len() == i,
            i <= 16,
        decreases 16 - i,
    {
        buf.push(0u8);
        i = i + 1;
    }
    if fill_entropy(&mut buf) {
        Some((read_u64_le(&buf, 0), read_u64_le(&buf, 8)))
    } else {
        None
    }
}

} // verus!
