//! BGRA pixel buffers and the whole-buffer operations on them: packing
//! padded rows tightly, forcing alpha to opaque, swapping to RGBA.

use vstd::prelude::*;
use std::sync::Arc;
use crate::geometry::{pin_window_size, PIN_MAX_WIDTH, PIN_MAX_HEIGHT};
use vstd::arithmetic::div_mod::{lemma_fundamental_div_mod_converse_div, lemma_fundamental_div_mod_converse_mod};
use vstd::arithmetic::mul::{lemma_mul_inequality, lemma_mul_is_distributive_add_other_way};

verus! {

/// BGRA pixel buffer (matches DXGI_FORMAT_B8G8R8A8_UNORM).
///
/// Uses `Arc<Vec<u8>>` internally so `.clone()` is a cheap refcount bump
/// instead of copying potentially 8+ MB of pixel data.
#[derive(Debug, Clone)]
pub struct PixelBuffer {
    pub data: Arc<Vec<u8>>,
    pub width: u32,
    pub height: u32,
    /// Row pitch in bytes (may be larger than width * 4 due to alignment).
    pub stride: u32,
}

impl PixelBuffer {
    /// A buffer over `data`, shared from now on.
    pub fn new(data: Vec<u8>, width: u32, height: u32, stride: u32) -> (r: Self)
        ensures
            r.data@ == data@,
            r.width == width,
            r.height == height,
            r.stride == stride,
    {
        PixelBuffer { data: Arc::new(data), width, height, stride }
    }
}

/// `row * width + col` for `col < width` splits back into `row` and `col`.
pub proof fn lemma_row_col(row: int, col: int, width: int)
    requires
        0 <= col < width,
    ensures
        (row * width + col) / width == row,
        (row * width + col) % width == col,
{
    lemma_fundamental_div_mod_converse_div(row * width + col, width, row, col);
    lemma_fundamental_div_mod_converse_mod(row * width + col, width, row, col);
}

/// The byte at `(row, col)` of a buffer with `stride` bytes per row lies
/// inside a buffer that holds `height` rows of `row_bytes` bytes.
pub proof fn lemma_in_rows(row: int, col: int, height: int, row_bytes: int, stride: int)
    requires
        0 <= row < height,
        0 <= col < row_bytes,
        row_bytes <= stride,
    ensures
        row * stride + col < (height - 1) * stride + row_bytes,
        0 <= row * stride + col,
{
    lemma_mul_inequality(row, height - 1, stride);
    assert(0 <= row * stride) by (nonlinear_arith)
        requires 0 <= row, 0 <= stride;
}

/// Whether a buffer of `len` bytes holds `height` rows of `row_bytes`
/// bytes each, `stride` bytes apart.
pub open spec fn holds_rows(len: int, height: int, row_bytes: int, stride: int) -> bool {
    height > 0 ==> (height - 1) * stride + row_bytes <= len
}

/// The rows of a padded buffer, packed tightly one after another.
pub open spec fn packed_rows(src: Seq<u8>, row_bytes: int, height: int, stride: int) -> Seq<u8> {
    Seq::new((height * row_bytes) as nat, |i: int| src[(i / row_bytes) * stride + i % row_bytes])
}

/// Copy `height` rows of `width` BGRA pixels out of a buffer whose rows are
/// `stride` bytes apart, into a buffer with no padding between rows.
pub fn pack_rows(src: &Vec<u8>, width: u32, height: u32, stride: u32) -> (r: Vec<u8>)
    requires
        4 * width * height <= usize::MAX,
        4 * width <= stride,
        holds_rows(src@.len() as int, height as int, 4 * width, stride as int),
    ensures
        r@ == packed_rows(src@, 4 * width, height as int, stride as int),
        r@.len() == 4 * width * height,
{
    let row_bytes: usize = (width as usize) * 4;
    let stride_u: usize = stride as usize;
    let h: usize = height as usize;
    let ghost rb = row_bytes as int;
    let ghost target = packed_rows(src@, rb, h as int, stride as int);
    assert(h * rb == 4 * width * height) by (nonlinear_arith)
        requires rb == 4 * width, h == height;
    let src_len = src.len();
    let mut out: Vec<u8> = Vec::new();
    let mut row: usize = 0;
    while row < h
        invariant
            src_len == src@.len(),
            row <= h,
            rb == row_bytes,
            rb == 4 * width,
            rb <= stride_u,
            stride_u == stride,
            h == height,
            h * rb <= usize::MAX,
            holds_rows(src@.len() as int, h as int, rb, stride as int),
            target == packed_rows(src@, rb, h as int, stride as int),
            out@.len() == row * rb,
            forall|i: int| 0 <= i < out@.len() ==> out@[i] == #[trigger] target[i],
        decreases h - row,
    {
        assert(row * rb + rb <= h * rb) by (nonlinear_arith)
            requires row < h, rb >= 0;
        let mut col: usize = 0;
        while col < row_bytes
            invariant
                src_len == src@.len(),
                row < h,
                col <= row_bytes,
                rb == row_bytes,
                rb <= stride_u,
                stride_u == stride,
                row * rb + rb <= h * rb,
                h * rb <= usize::MAX,
                holds_rows(src@.len() as int, h as int, rb, stride as int),
                target == packed_rows(src@, rb, h as int, stride as int),
                out@.len() == row * rb + col,
                forall|i: int| 0 <= i < out@.len() ==> out@[i] == #[trigger] target[i],
            decreases row_bytes - col,
        {
            proof {
                lemma_in_rows(row as int, col as int, h as int, rb, stride as int);
                lemma_row_col(row as int, col as int, rb);
                assert(row * stride_u + col < src@.len());
            }
            let idx = row * stride_u + col;
            let ghost p = out@.len() as int;
            assert(target[p] == src@[idx as int]);
            out.push(src[idx]);
            col = col + 1;
        }
        assert(row * rb + rb == (row + 1) * rb) by (nonlinear_arith);
        row = row + 1;
    }
    assert(out@ =~= target);
    out
}

/// Whether byte `i` of a buffer with the given geometry is the alpha byte
/// of one of its pixels.
pub open spec fn is_alpha_byte(i: int, width: int, height: int, stride: int) -> bool {
    &&& stride > 0
    &&& 0 <= i
    &&& i / stride < height
    &&& i % stride < 4 * width
    &&& i % stride % 4 == 3
}

/// The buffer with the alpha byte of every pixel set to 255.
pub open spec fn alpha_forced(data: Seq<u8>, width: int, height: int, stride: int) -> Seq<u8> {
    Seq::new(data.len(), |i: int| if is_alpha_byte(i, width, height, stride) { 255u8 } else { data[i] })
}

/// Force alpha=255 on every pixel (desktop duplication leaves it unreliable).
pub fn fix_alpha(data: &mut Vec<u8>, width: u32, height: u32, stride: u32)
    requires
        4 * width <= stride,
        holds_rows(old(data)@.len() as int, height as int, 4 * width, stride as int),
        old(data)@.len() <= usize::MAX,
    ensures
        final(data)@ == alpha_forced(old(data)@, width as int, height as int, stride as int),
{
    let ghost orig = data@;
    let ghost w = width as int;
    let ghost h = height as int;
    let ghost st = stride as int;
    let row_bytes: usize = (width as usize) * 4;
    let stride_u: usize = stride as usize;
    let mut row: usize = 0;
    while row < height as usize
        invariant
            row <= height,
            row_bytes == 4 * w,
            stride_u == st,
            w == width,
            h == height,
            st == stride,
            4 * w <= st,
            data@.len() == orig.len(),
            orig.len() <= usize::MAX,
            holds_rows(orig.len() as int, h, 4 * w, st),
            forall|i: int| 0 <= i < orig.len() ==> #[trigger] data@[i] == (
                if is_alpha_byte(i, w, h, st) && i / st < row { 255u8 } else { orig[i] }),
        decreases height - row,
    {
        let mut x: usize = 0;
        while x < width as usize
            invariant
                row < height,
                x <= width,
                row_bytes == 4 * w,
                stride_u == st,
                w == width,
                h == height,
                st == stride,
                4 * w <= st,
                data@.len() == orig.len(),
                orig.len() <= usize::MAX,
                holds_rows(orig.len() as int, h, 4 * w, st),
                forall|i: int| 0 <= i < orig.len() ==> #[trigger] data@[i] == (
                    if is_alpha_byte(i, w, h, st) && (i / st < row || (i / st == row && i % st < 4 * x)) { 255u8 } else { orig[i] }),
            decreases width - x,
        {
            let col: usize = x * 4 + 3;
            proof {
                lemma_in_rows(row as int, col as int, h, 4 * w, st);
            }
            let idx = row * stride_u + col;
            proof {
                lemma_row_col(row as int, col as int, st);
                assert forall|i: int| 0 <= i < orig.len() && i != idx implies
                    (is_alpha_byte(i, w, h, st) && (i / st < row || (i / st == row && i % st < 4 * x)))
                    == (is_alpha_byte(i, w, h, st) && (i / st < row || (i / st == row && i % st < 4 * (x + 1)))) by {
                    if is_alpha_byte(i, w, h, st) && i / st == row && 4 * x <= i % st < 4 * (x + 1) {
                        let c = i % st;
                        assert(c == 4 * x + 3);
                        assert(i == row * st + c) by {
                            vstd::arithmetic::div_mod::lemma_fundamental_div_mod(i, st);
                            assert(st * (i / st) == row * st) by (nonlinear_arith)
                                requires i / st == row;
                        }
                    }
                }
            }
            data.set(idx, 255u8);
            x = x + 1;
        }
        proof {
            assert forall|i: int| 0 <= i < orig.len() implies
                (is_alpha_byte(i, w, h, st) && (i / st < row || (i / st == row && i % st < 4 * width)))
                == (is_alpha_byte(i, w, h, st) && i / st < row + 1) by {
            }
        }
        row = row + 1;
    }
    assert(data@ =~= alpha_forced(orig, w, h, st)) by {
        assert forall|i: int| 0 <= i < orig.len() implies data@[i] == alpha_forced(orig, w, h, st)[i] by {
            if is_alpha_byte(i, w, h, st) {
                assert(i / st < h);
            }
        }
    }
}

/// Which source byte feeds byte `c` of an RGBA pixel taken from BGRA.
pub open spec fn rgba_source(c: int) -> int {
    if c == 0 { 2 } else if c == 2 { 0 } else { c }
}

/// A tightly packed buffer with the blue and red byte of every pixel
/// exchanged (BGRA to RGBA, and back).
pub open spec fn swapped_red_blue(data: Seq<u8>) -> Seq<u8> {
    Seq::new(data.len(), |i: int| data[i - i % 4 + rgba_source(i % 4)])
}

/// Exchange the blue and red byte of every whole pixel of a tightly
/// packed buffer.
pub fn swap_red_blue(data: &mut Vec<u8>)
    requires
        old(data)@.len() % 4 == 0,
    ensures
        final(data)@ == swapped_red_blue(old(data)@),
{
    let ghost orig = data@;
    let n = data.len();
    let mut p: usize = 0;
    while p < n / 4
        invariant
            n == orig.len(),
            n % 4 == 0,
            p <= n / 4,
            data@.len() == n,
            forall|i: int| 0 <= i < n ==> #[trigger] data@[i] == (
                if i < 4 * p { swapped_red_blue(orig)[i] } else { orig[i] }),
        decreases n / 4 - p,
    {
        let base = p * 4;
        let b = data[base];
        let r = data[base + 2];
        data.set(base, r);
        data.set(base + 2, b);
        proof {
            assert forall|i: int| 0 <= i < n implies #[trigger] data@[i] == (
                if i < 4 * (p + 1) { swapped_red_blue(orig)[i] } else { orig[i] }) by {
                if 4 * p <= i < 4 * (p + 1) {
                    assert(i % 4 == i - 4 * p);
                }
            }
        }
        p = p + 1;
    }
    assert(data@ =~= swapped_red_blue(orig));
}

/// Swapping blue and red twice gives the buffer back.
pub proof fn lemma_swap_red_blue_involution(data: Seq<u8>)
    requires
        data.len() % 4 == 0,
    ensures
        swapped_red_blue(swapped_red_blue(data)) == data,
{
    let once = swapped_red_blue(data);
    assert forall|i: int| 0 <= i < data.len() implies swapped_red_blue(once)[i] == data[i] by {
        let j = i - i % 4 + rgba_source(i % 4);
        assert(0 <= j < data.len());
        assert(j % 4 == rgba_source(i % 4));
        assert(j - j % 4 == i - i % 4);
    }
    assert(swapped_red_blue(once) =~= data);
}

/// A window that pins a capture to the screen: where it goes, how large
/// it is, and the bitmap it shows.
#[derive(Debug)]
pub struct PinLayout<'a> {
    pub x: i32,
    pub y: i32,
    pub width: i32,
    pub height: i32,
    /// The pixels the window shows: the capture's own buffer.
    pub bitmap: &'a Vec<u8>,
    pub bitmap_width: u32,
    pub bitmap_height: u32,
    /// Bytes from one bitmap row to the next.
    pub bitmap_pitch: u32,
}

/// Where a pinned capture first appears on the screen.
pub const PIN_X: i32 = 100;
pub const PIN_Y: i32 = 100;

/// The pin window of a capture: at (100, 100), the capture's size capped
/// at 800 x 600, showing the capture's pixels at their own size and pitch.
pub fn pin_layout<'a>(pixels: &'a PixelBuffer) -> (r: PinLayout<'a>)
    ensures
        r.x == PIN_X,
        r.y == PIN_Y,
        r.width == if pixels.width < PIN_MAX_WIDTH { pixels.width as int } else { PIN_MAX_WIDTH as int },
        r.height == if pixels.height < PIN_MAX_HEIGHT { pixels.height as int } else { PIN_MAX_HEIGHT as int },
        r.bitmap@ == pixels.data@,
        r.bitmap_width == pixels.width,
        r.bitmap_height == pixels.height,
        r.bitmap_pitch == pixels.stride,
{
    let (w, h) = pin_window_size(pixels.width, pixels.height);
    PinLayout {
        x: PIN_X,
        y: PIN_Y,
        width: w,
        height: h,
        bitmap: &pixels.data,
        bitmap_width: pixels.width,
        bitmap_height: pixels.height,
        bitmap_pitch: pixels.stride,
    }
}

} // verus!
