//! CPU rasterisation onto BGRA buffers: alpha blending of single pixels,
//! filled rectangles, block pixelation and a built-in 5x7 bitmap font.
//!
//! Geometry that needs floating point (line distance, rounding of
//! annotation coordinates) is resolved by the caller; these operations
//! work on whole pixels.

use vstd::prelude::*;
use crate::pixels::{lemma_row_col, lemma_in_rows};

verus! {

/// `(s * a + d * (255 - a)) / 255`: source over destination at alpha `a`.
pub open spec fn blend_channel(s: u8, d: u8, a: u8) -> u8 {
    ((s * a + d * (255 - a)) / 255) as u8
}

/// A BGRA colour.
#[derive(Debug, Clone, Copy, PartialEq, Eq, Structural)]
pub struct Bgra {
    pub b: u8,
    pub g: u8,
    pub r: u8,
    pub a: u8,
}

/// The source byte of channel `c` (0 = blue, 1 = green, 2 = red).
pub open spec fn channel(color: Bgra, c: int) -> u8 {
    if c == 0 { color.b } else if c == 1 { color.g } else { color.r }
}

/// Byte `c` of a destination pixel after `color` is composited over it
/// (source over, destination left opaque). A fully transparent colour
/// leaves the pixel as it was.
pub open spec fn painted(old: u8, c: int, color: Bgra) -> u8 {
    if color.a == 255 {
        if c == 3 { 255u8 } else { channel(color, c) }
    } else if color.a > 0 {
        if c == 3 { 255u8 } else { blend_channel(channel(color, c), old, color.a) }
    } else {
        old
    }
}

/// The buffer after compositing `color` over the pixel whose first byte is
/// at `off`; a pixel that does not lie wholly inside the buffer is skipped.
pub open spec fn blended_at(data: Seq<u8>, off: int, color: Bgra) -> Seq<u8> {
    Seq::new(data.len(), |i: int|
        if off + 3 < data.len() && off <= i < off + 4 { painted(data[i], i - off, color) } else { data[i] })
}

proof fn lemma_blend_fits(s: u8, d: u8, a: u8)
    ensures
        s * a + d * (255 - a) <= 65025,
        (s * a + d * (255 - a)) / 255 <= 255,
{
    assert(s * a + d * (255 - a) <= 255 * a + 255 * (255 - a)) by (nonlinear_arith)
        requires s <= 255, d <= 255, a <= 255;
}

fn blend_byte(s: u8, d: u8, a: u8) -> (r: u8)
    ensures
        r == blend_channel(s, d, a),
{
    proof { lemma_blend_fits(s, d, a); }
    let alpha = a as u16;
    let inv_alpha = 255 - alpha;
    ((s as u16 * alpha + d as u16 * inv_alpha) / 255) as u8
}

/// Blend a single pixel with alpha compositing (src-over).
pub fn blend_pixel(data: &mut Vec<u8>, stride: u32, x: u32, y: u32, sb: u8, sg: u8, sr: u8, sa: u8)
    requires
        y * stride + x * 4 <= u32::MAX,
    ensures
        final(data)@ == blended_at(old(data)@, y * stride + x * 4, Bgra { b: sb, g: sg, r: sr, a: sa }),
{
    let off = (y * stride + x * 4) as usize;
    let ghost color = Bgra { b: sb, g: sg, r: sr, a: sa };
    let ghost target = blended_at(old(data)@, off as int, color);
    if off >= data.len() || data.len() - off <= 3 {
        assert(data@ =~= target);
        return;
    }
    if sa == 255 {
        data.set(off, sb);
        data.set(off + 1, sg);
        data.set(off + 2, sr);
        data.set(off + 3, 255);
    } else if sa > 0 {
        let nb = blend_byte(sb, data[off], sa);
        data.set(off, nb);
        let ng = blend_byte(sg, data[off + 1], sa);
        data.set(off + 1, ng);
        let nr = blend_byte(sr, data[off + 2], sa);
        data.set(off + 2, nr);
        data.set(off + 3, 255);
    }
    assert(data@ =~= target);
}

/// Whether byte `i` belongs to a pixel of the rectangle `[x0, x1) x [y0, y1)`
/// that lies wholly inside a buffer of `len` bytes with `stride` bytes per row.
pub open spec fn rect_byte(i: int, len: int, stride: int, x0: int, x1: int, y0: int, y1: int) -> bool {
    &&& stride > 0
    &&& 0 <= i
    &&& y0 <= i / stride < y1
    &&& 4 * x0 <= i % stride < 4 * x1
    &&& i - i % stride % 4 + 3 < len
}

/// The buffer with `color` composited over every pixel of a rectangle.
pub open spec fn rect_filled(data: Seq<u8>, stride: int, x0: int, x1: int, y0: int, y1: int, color: Bgra) -> Seq<u8> {
    Seq::new(data.len(), |i: int|
        if rect_byte(i, data.len() as int, stride, x0, x1, y0, y1) { painted(data[i], i % stride % 4, color) } else { data[i] })
}

/// Byte `i` lies in the pixel of row `y`, column `x`, at position `c`.
pub(crate) proof fn lemma_pixel_byte(i: int, stride: int, x: int, y: int, c: int)
    requires
        0 <= c < 4,
        0 <= 4 * x,
        4 * x + 4 <= stride,
        0 <= y,
        i == y * stride + 4 * x + c,
    ensures
        i / stride == y,
        i % stride == 4 * x + c,
        i % stride % 4 == c,
        i % stride / 4 == x,
        i - i % stride % 4 == y * stride + 4 * x,
{
    lemma_row_col(y, 4 * x + c, stride);
    lemma_row_col(x, c, 4);
    assert(x * 4 == 4 * x);
}

/// Composite `color` over every pixel of the rectangle `[x0, x1) x [y0, y1)`
/// (opaque colours overwrite, translucent ones blend).
pub fn fill_rect(data: &mut Vec<u8>, stride: u32, x0: u32, x1: u32, y0: u32, y1: u32, color: Bgra)
    requires
        4 * x1 <= stride,
        y1 * stride <= u32::MAX,
    ensures
        final(data)@ == rect_filled(old(data)@, stride as int, x0 as int, x1 as int, y0 as int, y1 as int, color),
{
    let ghost orig = data@;
    let ghost len = orig.len() as int;
    let ghost st = stride as int;
    let mut y = y0;
    while y < y1
        invariant
            y0 <= y,
            y <= y1 || y1 <= y0,
            4 * x1 <= stride,
            y1 * stride <= u32::MAX,
            st == stride,
            data@.len() == len,
            forall|i: int| 0 <= i < len ==> #[trigger] data@[i] == (
                if rect_byte(i, len, st, x0 as int, x1 as int, y0 as int, y1 as int) && i / st < y
                { painted(orig[i], i % st % 4, color) } else { orig[i] }),
        decreases y1 - y,
    {
        let mut x = x0;
        while x < x1
            invariant
                y0 <= y < y1,
                x0 <= x,
                x <= x1 || x1 <= x0,
                4 * x1 <= stride,
                y1 * stride <= u32::MAX,
                st == stride,
                data@.len() == len,
                forall|i: int| 0 <= i < len ==> #[trigger] data@[i] == (
                    if rect_byte(i, len, st, x0 as int, x1 as int, y0 as int, y1 as int)
                        && (i / st < y || (i / st == y && i % st < 4 * x))
                    { painted(orig[i], i % st % 4, color) } else { orig[i] }),
            decreases x1 - x,
        {
            assert(y * stride + x * 4 <= u32::MAX) by (nonlinear_arith)
                requires y < y1, y1 * stride <= u32::MAX, x < x1, 4 * x1 <= stride;
            let ghost off = y * stride + x * 4;
            let ghost before = data@;
            blend_pixel(data, stride, x, y, color.b, color.g, color.r, color.a);
            assert(Bgra { b: color.b, g: color.g, r: color.r, a: color.a } == color);
            assert(data@ == blended_at(before, off, color));
            proof {
                assert forall|i: int| 0 <= i < len implies #[trigger] data@[i] == (
                    if rect_byte(i, len, st, x0 as int, x1 as int, y0 as int, y1 as int)
                        && (i / st < y || (i / st == y && i % st < 4 * (x + 1)))
                    { painted(orig[i], i % st % 4, color) } else { orig[i] }) by {
                    if off <= i < off + 4 {
                        lemma_pixel_byte(i, st, x as int, y as int, i - off);
                        assert(!(i / st == y && i % st < 4 * x));
                        assert(before[i] == orig[i]);
                        if off + 3 < len {
                            assert(rect_byte(i, len, st, x0 as int, x1 as int, y0 as int, y1 as int));
                            assert(data@[i] == painted(orig[i], i - off, color));
                        } else {
                            assert(!rect_byte(i, len, st, x0 as int, x1 as int, y0 as int, y1 as int));
                        }
                    } else if stride > 0 && 0 <= i && i / st == y && 4 * x <= i % st < 4 * (x + 1) {
                        let c = i % st % 4;
                        vstd::arithmetic::div_mod::lemma_fundamental_div_mod(i, st);
                        assert(st * (i / st) == y * st) by (nonlinear_arith)
                            requires i / st == y;
                        assert(i % st == 4 * x + c) by {
                            vstd::arithmetic::div_mod::lemma_fundamental_div_mod(i % st, 4);
                        }
                        assert(i == off + c);
                    } else {
                        assert(data@[i] == before[i]);
                    }
                }
            }
            x = x + 1;
        }
        proof {
            assert forall|i: int| 0 <= i < len implies
                (rect_byte(i, len, st, x0 as int, x1 as int, y0 as int, y1 as int)
                    && (i / st < y || (i / st == y && i % st < 4 * x)))
                == (rect_byte(i, len, st, x0 as int, x1 as int, y0 as int, y1 as int) && i / st < y + 1) by {
            }
        }
        y = y + 1;
    }
    assert(data@ =~= rect_filled(orig, st, x0 as int, x1 as int, y0 as int, y1 as int, color)) by {
        assert forall|i: int| 0 <= i < len implies data@[i]
            == rect_filled(orig, st, x0 as int, x1 as int, y0 as int, y1 as int, color)[i] by {
            if rect_byte(i, len, st, x0 as int, x1 as int, y0 as int, y1 as int) {
                assert(i / st < y);
            }
        }
    }
}

} // verus!
