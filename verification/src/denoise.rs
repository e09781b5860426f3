//! The 5x5 neighbourhood that the smoothing pass weighs.
//!
//! The pass reads, for every pixel, the twenty-five pixels around it, with
//! edges replicated, and pairs each with the weight of a fixed Gaussian
//! kernel. Weights are kept as whole ten-thousandths, so that the kernel is
//! exact and its normalisation can be stated.

use vstd::prelude::*;
use crate::raster::{
    clamp_index,
    clamped_pixel,
    get_pixel,
    lemma_pixel_in_bounds,
    shape_len,
    Rgb,
};

verus! {

/// What the kernel weights add up to: they are ten-thousandths.
pub const KERNEL_SCALE: u32 = 10_000;

/// Number of taps along one side of the neighbourhood.
pub const KERNEL_SIDE: usize = 5;

/// One neighbour: its levels and its kernel weight, in ten-thousandths.
#[derive(Clone, Copy, Debug, PartialEq, Eq, Structural)]
pub struct Tap {
    pub level: Rgb,
    pub weight: u32,
}

/// Distance of an offset from the centre.
pub open spec fn reach(d: int) -> int {
    if d < 0 {
        -d
    } else {
        d
    }
}

/// Kernel weight of the tap `dy` rows and `dx` columns from the centre, in
/// ten-thousandths. It depends only on the two distances, whichever is
/// which; outside the 5x5 neighbourhood it is zero.
pub open spec fn kernel_weight(dy: int, dx: int) -> int {
    let near = if reach(dy) < reach(dx) {
        reach(dy)
    } else {
        reach(dx)
    };
    let far = if reach(dy) < reach(dx) {
        reach(dx)
    } else {
        reach(dy)
    };
    if far == 0 {
        1508
    } else if far == 1 {
        if near == 0 {
            952
        } else {
            586
        }
    } else if far == 2 {
        if near == 0 {
            256
        } else if near == 1 {
            146
        } else {
            37
        }
    } else {
        0
    }
}

/// Sum of the kernel weights of one row of taps.
pub open spec fn kernel_row_sum(dy: int) -> int {
    kernel_weight(dy, -2) + kernel_weight(dy, -1) + kernel_weight(dy, 0) + kernel_weight(dy, 1)
        + kernel_weight(dy, 2)
}

/// The `k`-th tap around column `x` of row `y`, counting row by row from
/// the upper left.
pub open spec fn tap_of(data: Seq<u8>, width: int, height: int, x: int, y: int, k: int) -> Tap {
    let dy = k / 5 - 2;
    let dx = k % 5 - 2;
    Tap {
        level: clamped_pixel(data, width, height, x + dx, y + dy),
        weight: kernel_weight(dy, dx) as u32,
    }
}

/// The twenty-five taps around column `x` of row `y`.
pub open spec fn window_of(data: Seq<u8>, width: int, height: int, x: int, y: int) -> Seq<Tap> {
    Seq::new(25, |k: int| tap_of(data, width, height, x, y, k))
}

/// The kernel is normalised: its twenty-five weights add up to the scale.
pub proof fn lemma_kernel_is_normalised()
    ensures
        kernel_row_sum(-2) + kernel_row_sum(-1) + kernel_row_sum(0) + kernel_row_sum(1)
            + kernel_row_sum(2) == KERNEL_SCALE,
{
}

/// The kernel is symmetric: mirroring an offset, or swapping rows for
/// columns, keeps the weight.
pub proof fn lemma_kernel_is_symmetric(dy: int, dx: int)
    ensures
        kernel_weight(dy, dx) == kernel_weight(dx, dy),
        kernel_weight(dy, dx) == kernel_weight(-dy, dx),
        kernel_weight(dy, dx) == kernel_weight(dy, -dx),
{
}

/// Every weight is positive inside the neighbourhood and at most the
/// centre's.
pub proof fn lemma_kernel_weight_bounds(dy: int, dx: int)
    requires
        -2 <= dy <= 2,
        -2 <= dx <= 2,
    ensures
        0 < kernel_weight(dy, dx) <= kernel_weight(0, 0),
{
}

/// Kernel weight of the tap in row `row` and column `col` of the
/// neighbourhood, both counted from 0 at the upper left.
pub fn gauss_weight(row: usize, col: usize) -> (r: u32)
    requires
        row < KERNEL_SIDE,
        col < KERNEL_SIDE,
    ensures
        r == kernel_weight(row - 2, col - 2),
{
    let a: usize = if row < 2 {
        2 - row
    } else {
        row - 2
    };
    let b: usize = if col < 2 {
        2 - col
    } else {
        col - 2
    };
    let near: usize = if a < b {
        a
    } else {
        b
    };
    let far: usize = if a < b {
        b
    } else {
        a
    };
    if far == 0 {
        1508
    } else if far == 1 {
        if near == 0 {
            952
        } else {
            586
        }
    } else {
        if near == 0 {
            256
        } else if near == 1 {
            146
        } else {
            37
        }
    }
}

/// The coordinate `step - 2` away from `c`, clamped into `0 .. n`.
fn neighbour(c: usize, step: usize, n: usize) -> (r: usize)
    requires
        c < n,
        step < KERNEL_SIDE,
    ensures
        r == clamp_index(c + step - 2, n as int),
        r < n,
{
    if step < 2 {
        let back: usize = 2 - step;
        if c < back {
            0
        } else {
            c - back
        }
    } else {
        let ahead: usize = step - 2;
        if ahead >= n - c {
            n - 1
        } else {
            c + ahead
        }
    }
}

/// Collects the twenty-five taps around column `x` of row `y`, row by row
/// from the upper left, each with its kernel weight. Neighbours beyond an
/// edge repeat the pixel on the edge.
pub fn denoise_window(input: &[u8], w: usize, h: usize, x: usize, y: usize) -> (r: Vec<Tap>)
    requires
        x < w,
        y < h,
        input@.len() == shape_len(w as int, h as int),
    ensures
        r@ == window_of(input@, w as int, h as int, x as int, y as int),
{
    let len = input.len();
    let mut taps: Vec<Tap> = Vec::new();
    let mut row: usize = 0;
    while row < KERNEL_SIDE
        invariant
            x < w,
            y < h,
            len == input@.len(),
            input@.len() == shape_len(w as int, h as int),
            row <= KERNEL_SIDE,
            taps@.len() == 5 * row,
            forall|k: int|
                0 <= k < taps@.len() ==> taps@[k] == tap_of(
                    input@,
                    w as int,
                    h as int,
                    x as int,
                    y as int,
                    k,
                ),
        decreases KERNEL_SIDE - row,
    {
        let ny = neighbour(y, row, h);
        let mut col: usize = 0;
        while col < KERNEL_SIDE
            invariant
                x < w,
                y < h,
                len == input@.len(),
                input@.len() == shape_len(w as int, h as int),
                row < KERNEL_SIDE,
                col <= KERNEL_SIDE,
                ny == clamp_index(y + row - 2, h as int),
                ny < h,
                taps@.len() == 5 * row + col,
                forall|k: int|
                    0 <= k < taps@.len() ==> taps@[k] == tap_of(
                        input@,
                        w as int,
                        h as int,
                        x as int,
                        y as int,
                        k,
                    ),
            decreases KERNEL_SIDE - col,
        {
            let nx = neighbour(x, col, w);
            proof {
                lemma_pixel_in_bounds(w as int, h as int, nx as int, ny as int);
                assert(0 <= ny * w <= ny * w + nx);
                assert(3 * (ny * w + nx) + 2 < len);
            }
            let level = get_pixel(input, ny * w + nx);
            let weight = gauss_weight(row, col);
            let ghost k = 5 * row + col;
            assert(k / 5 == row && k % 5 == col);
            taps.push(Tap { level, weight });
            col += 1;
        }
        row += 1;
    }
    assert(taps@ =~= window_of(input@, w as int, h as int, x as int, y as int));
    taps
}

} // verus!
