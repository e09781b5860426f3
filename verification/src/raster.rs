//! Geometry of the interleaved 8-bit RGB buffer.
//!
//! A buffer holds `width * height` pixels row by row, three bytes each, in
//! the order red, green, blue, with nothing between rows.

use vstd::prelude::*;

verus! {

/// One pixel: its red, green and blue levels.
#[derive(Clone, Copy, Debug, PartialEq, Eq, Structural)]
pub struct Rgb {
    pub r: u8,
    pub g: u8,
    pub b: u8,
}

/// A buffer whose length does not fit its stated dimensions.
#[derive(Clone, Copy, Debug, PartialEq, Eq, Structural)]
pub struct ShapeError {
    /// Stated width, in pixels.
    pub width: usize,
    /// Stated height, in pixels.
    pub height: usize,
    /// Length of the buffer that was handed in, in bytes.
    pub len: usize,
}

/// Number of bytes in a buffer of the given dimensions.
pub open spec fn shape_len(width: int, height: int) -> int {
    width * height * 3
}

/// The pixel that starts at byte `3 * i`.
pub open spec fn pixel_of(data: Seq<u8>, i: int) -> Rgb {
    Rgb { r: data[3 * i], g: data[3 * i + 1], b: data[3 * i + 2] }
}

/// The nearest coordinate to `c` inside `0 .. n`.
pub open spec fn clamp_index(c: int, n: int) -> int {
    if c < 0 {
        0
    } else if c >= n {
        n - 1
    } else {
        c
    }
}

/// The pixel at column `x` of row `y`, where a coordinate outside the image
/// stands for the nearest one inside it: edges replicate outward.
pub open spec fn clamped_pixel(data: Seq<u8>, width: int, height: int, x: int, y: int) -> Rgb {
    pixel_of(data, clamp_index(y, height) * width + clamp_index(x, width))
}

/// A pixel index inside an image of `width * height` pixels addresses three
/// bytes inside its buffer.
pub proof fn lemma_pixel_in_bounds(width: int, height: int, x: int, y: int)
    requires
        0 <= x < width,
        0 <= y < height,
    ensures
        0 <= y * width + x < width * height,
        3 * (y * width + x) + 2 < shape_len(width, height),
{
    assert(y * width + x < width * height) by (nonlinear_arith)
        requires
            0 <= x < width,
            0 <= y < height,
    ;
    assert(0 <= y * width) by (nonlinear_arith)
        requires
            0 <= y,
            0 < width,
    ;
}

/// The pixel with index `i` of an image lies in a column and a row of it,
/// and three bytes into its buffer.
pub proof fn lemma_position_in_bounds(i: int, width: int, height: int)
    requires
        0 <= i,
        0 <= width,
        0 <= height,
        3 * i + 2 < shape_len(width, height),
    ensures
        0 < width,
        0 <= i % width < width,
        0 <= i / width < height,
        i < width * height,
{
    assert(i < width * height) by (nonlinear_arith)
        requires
            3 * i + 2 < width * height * 3,
    ;
    assert(width > 0) by (nonlinear_arith)
        requires
            0 <= i < width * height,
            0 <= width,
    ;
    vstd::arithmetic::div_mod::lemma_fundamental_div_mod(i, width);
    vstd::arithmetic::div_mod::lemma_div_pos_is_pos(i, width);
    vstd::arithmetic::div_mod::lemma_mod_bound(i, width);
    let q = i / width;
    assert(q < height) by (nonlinear_arith)
        requires
            i == width * q + i % width,
            0 <= i % width,
            i < width * height,
            width > 0,
    ;
}

/// Number of bytes in a buffer of the given dimensions, where that number
/// can be represented.
pub fn expected_len(width: usize, height: usize) -> (r: Option<usize>)
    ensures
        match r {
            Some(n) => n == shape_len(width as int, height as int),
            None => shape_len(width as int, height as int) > usize::MAX,
        },
{
    match width.checked_mul(height) {
        Some(pixels) => pixels.checked_mul(3),
        None => {
            assert(width * height * 3 >= width * height) by (nonlinear_arith)
                requires
                    width * height >= 0,
            ;
            None
        },
    }
}

/// Checks a buffer's length against its stated dimensions and gives the
/// number of pixels. A mismatch is an error that names the three numbers;
/// dimensions whose byte count cannot be represented match no buffer.
pub fn check_shape(len: usize, width: usize, height: usize) -> (r: Result<usize, ShapeError>)
    ensures
        match r {
            Ok(pixels) => len == shape_len(width as int, height as int) && pixels == width
                * height,
            Err(e) => len != shape_len(width as int, height as int) && e == (ShapeError {
                width,
                height,
                len,
            }),
        },
{
    match expected_len(width, height) {
        Some(n) => {
            if n == len {
                Ok(n / 3)
            } else {
                Err(ShapeError { width, height, len })
            }
        },
        None => Err(ShapeError { width, height, len }),
    }
}

/// Column and row of the pixel with index `i` in an image `width` wide.
pub fn pixel_position(i: usize, width: usize) -> (r: (usize, usize))
    requires
        width > 0,
    ensures
        r.0 == i as int % width as int,
        r.1 == i as int / width as int,
{
    (i % width, i / width)
}

/// Reads the pixel with index `i`.
pub fn get_pixel(input: &[u8], i: usize) -> (r: Rgb)
    requires
        3 * i + 2 < input@.len(),
    ensures
        r == pixel_of(input@, i as int),
{
    let len = input.len();
    assert(3 * i + 2 < len);
    let base: usize = 3 * i;
    Rgb { r: input[base], g: input[base + 1], b: input[base + 2] }
}

/// Clamps a signed coordinate into `0 .. n`.
fn clamp_coordinate(c: i32, n: usize) -> (r: usize)
    requires
        n > 0,
    ensures
        r == clamp_index(c as int, n as int),
        r < n,
{
    if c < 0 {
        0
    } else {
        let u: usize = c as usize;
        if u >= n {
            n - 1
        } else {
            u
        }
    }
}

/// Reads the pixel at column `x` of row `y`; each coordinate is first
/// clamped into the image, on its own.
pub fn get_pixel_clamped(input: &[u8], w: usize, h: usize, x: i32, y: i32) -> (r: Rgb)
    requires
        w > 0,
        h > 0,
        input@.len() == shape_len(w as int, h as int),
    ensures
        r == clamped_pixel(input@, w as int, h as int, x as int, y as int),
{
    let cx = clamp_coordinate(x, w);
    let cy = clamp_coordinate(y, h);
    let len = input.len();
    proof {
        lemma_pixel_in_bounds(w as int, h as int, cx as int, cy as int);
        assert(0 <= cy * w <= cy * w + cx);
        assert(3 * (cy * w + cx) + 2 < len);
    }
    get_pixel(input, cy * w + cx)
}

} // verus!
