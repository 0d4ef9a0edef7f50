//! Geometry of a row-major frame of 8-bit RGB pixels.
//!
//! A frame of `width` by `height` pixels is a sequence of
//! `3 * width * height` bytes. Pixel number `i` occupies the bytes
//! `3 * i .. 3 * i + 3` and sits in column `i % width` of row `i / width`.

use vstd::prelude::*;

verus! {

/// One RGB pixel.
#[derive(Clone, Copy, Debug, PartialEq, Eq, Structural)]
pub struct Pixel {
    pub r: u8,
    pub g: u8,
    pub b: u8,
}

/// The number of pixels of a frame.
pub open spec fn pixel_count(width: u32, height: u32) -> int {
    width as int * height as int
}

/// The number of bytes of a frame.
pub open spec fn frame_len(width: u32, height: u32) -> int {
    3 * pixel_count(width, height)
}

/// The pixel that `buf` holds under number `index`.
pub open spec fn pixel_at(buf: Seq<u8>, index: int) -> Pixel {
    Pixel { r: buf[3 * index], g: buf[3 * index + 1], b: buf[3 * index + 2] }
}

/// The column of pixel number `index` in rows of `width` pixels.
pub open spec fn column_of(index: int, width: u32) -> int {
    index % (width as int)
}

/// The row of pixel number `index` in rows of `width` pixels.
pub open spec fn row_of(index: int, width: u32) -> int {
    index / (width as int)
}

/// The number of the pixel in column `x` of row `y`.
pub open spec fn index_of(x: int, y: int, width: u32) -> int {
    y * (width as int) + x
}

/// Every pixel number of a frame names a column and a row inside the frame,
/// and that column and row lead back to the same number.
pub proof fn lemma_position_in_frame(index: int, width: u32, height: u32)
    requires
        0 <= index < pixel_count(width, height),
    ensures
        0 <= column_of(index, width) < width,
        0 <= row_of(index, width) < height,
        index_of(column_of(index, width), row_of(index, width), width) == index,
{
    let w = width as int;
    let h = height as int;
    assert(w > 0) by (nonlinear_arith)
        requires
            0 <= index < w * h,
            0 <= w,
            0 <= h,
    ;
    vstd::arithmetic::div_mod::lemma_fundamental_div_mod(index, w);
    vstd::arithmetic::div_mod::lemma_mod_bound(index, w);
    vstd::arithmetic::div_mod::lemma_div_pos_is_pos(index, w);
    let q = index / w;
    let r = index % w;
    assert(q < h) by (nonlinear_arith)
        requires
            index == w * q + r,
            0 <= r < w,
            index < w * h,
            0 <= q,
            0 <= h,
    ;
    assert(q * w == w * q) by (nonlinear_arith);
}

/// Every column and row inside a frame belong to exactly one pixel number
/// of the frame.
pub proof fn lemma_index_in_frame(x: int, y: int, width: u32, height: u32)
    requires
        0 <= x < width,
        0 <= y < height,
    ensures
        0 <= index_of(x, y, width) < pixel_count(width, height),
        column_of(index_of(x, y, width), width) == x,
        row_of(index_of(x, y, width), width) == y,
{
    let w = width as int;
    let h = height as int;
    assert(0 <= y * w + x < w * h) by (nonlinear_arith)
        requires
            0 <= x < w,
            0 <= y < h,
    ;
    vstd::arithmetic::div_mod::lemma_fundamental_div_mod_converse(y * w + x, w, y, x);
}

/// The byte length of a frame, where the machine can address it.
pub fn expected_len(width: u32, height: u32) -> (r: Option<usize>)
    ensures
        match r {
            Some(n) => n == frame_len(width, height),
            None => frame_len(width, height) > usize::MAX,
        },
{
    let pixels = (width as usize).checked_mul(height as usize);
    match pixels {
        Some(n) => n.checked_mul(3),
        None => None,
    }
}

/// Column and row of pixel number `index`.
pub fn pixel_position(index: usize, width: u32) -> (r: (u32, u32))
    requires
        width > 0,
        row_of(index as int, width) <= u32::MAX,
    ensures
        r.0 == column_of(index as int, width),
        r.1 == row_of(index as int, width),
{
    let w = width as usize;
    proof {
        vstd::arithmetic::div_mod::lemma_mod_bound(index as int, w as int);
    }
    ((index % w) as u32, (index / w) as u32)
}

/// Reads pixel number `index` of `buf`.
pub fn read_pixel(buf: &[u8], index: usize) -> (p: Pixel)
    requires
        3 * index + 3 <= buf@.len(),
    ensures
        p == pixel_at(buf@, index as int),
{
    assert(buf@.len() <= usize::MAX) by {
        vstd::slice::axiom_spec_len(buf);
    }
    let at = 3 * index;
    Pixel { r: buf[at], g: buf[at + 1], b: buf[at + 2] }
}

/// Overwrites pixel number `index` of `buf` and leaves every other byte as
/// it was.
pub fn write_pixel(buf: &mut [u8], index: usize, p: Pixel)
    requires
        3 * index + 3 <= old(buf)@.len(),
    ensures
        final(buf)@.len() == old(buf)@.len(),
        pixel_at(final(buf)@, index as int) == p,
        forall|k: int|
            0 <= k < old(buf)@.len() && !(3 * index <= k < 3 * index + 3) ==> final(buf)@[k]
                == old(buf)@[k],
{
    assert(old(buf)@.len() <= usize::MAX) by {
        vstd::slice::axiom_spec_len(old(buf));
    }
    let at = 3 * index;
    buf[at] = p.r;
    buf[at + 1] = p.g;
    buf[at + 2] = p.b;
}

} // verus!
