//! The built-in 5x7 bitmap font and text drawn with it onto BGRA buffers.

use vstd::prelude::*;
use crate::raster::{Bgra, painted, rect_byte, blended_at, blend_pixel, lemma_pixel_byte};

verus! {

/// The seven rows of the glyph of `ch`, top first; bit 4 of a row is its
/// leftmost column. Letters of either case share a glyph; a character
/// without one is drawn as an empty box.
pub open spec fn glyph_rows(ch: char) -> Seq<u8> {
    if ch == 'A' || ch == 'a' {
        seq![0b01110, 0b10001, 0b10001, 0b11111, 0b10001, 0b10001, 0b10001]
    } else if ch == 'B' || ch == 'b' {
        seq![0b11110, 0b10001, 0b10001, 0b11110, 0b10001, 0b10001, 0b11110]
    } else if ch == 'C' || ch == 'c' {
        seq![0b01110, 0b10001, 0b10000, 0b10000, 0b10000, 0b10001, 0b01110]
    } else if ch == 'D' || ch == 'd' {
        seq![0b11110, 0b10001, 0b10001, 0b10001, 0b10001, 0b10001, 0b11110]
    } else if ch == 'E' || ch == 'e' {
        seq![0b11111, 0b10000, 0b10000, 0b11110, 0b10000, 0b10000, 0b11111]
    } else if ch == 'F' || ch == 'f' {
        seq![0b11111, 0b10000, 0b10000, 0b11110, 0b10000, 0b10000, 0b10000]
    } else if ch == 'G' || ch == 'g' {
        seq![0b01110, 0b10001, 0b10000, 0b10111, 0b10001, 0b10001, 0b01110]
    } else if ch == 'H' || ch == 'h' {
        seq![0b10001, 0b10001, 0b10001, 0b11111, 0b10001, 0b10001, 0b10001]
    } else if ch == 'I' || ch == 'i' {
        seq![0b01110, 0b00100, 0b00100, 0b00100, 0b00100, 0b00100, 0b01110]
    } else if ch == 'J' || ch == 'j' {
        seq![0b00111, 0b00010, 0b00010, 0b00010, 0b00010, 0b10010, 0b01100]
    } else if ch == 'K' || ch == 'k' {
        seq![0b10001, 0b10010, 0b10100, 0b11000, 0b10100, 0b10010, 0b10001]
    } else if ch == 'L' || ch == 'l' {
        seq![0b10000, 0b10000, 0b10000, 0b10000, 0b10000, 0b10000, 0b11111]
    } else if ch == 'M' || ch == 'm' {
        seq![0b10001, 0b11011, 0b10101, 0b10101, 0b10001, 0b10001, 0b10001]
    } else if ch == 'N' || ch == 'n' {
        seq![0b10001, 0b11001, 0b10101, 0b10011, 0b10001, 0b10001, 0b10001]
    } else if ch == 'O' || ch == 'o' {
        seq![0b01110, 0b10001, 0b10001, 0b10001, 0b10001, 0b10001, 0b01110]
    } else if ch == 'P' || ch == 'p' {
        seq![0b11110, 0b10001, 0b10001, 0b11110, 0b10000, 0b10000, 0b10000]
    } else if ch == 'Q' || ch == 'q' {
        seq![0b01110, 0b10001, 0b10001, 0b10001, 0b10101, 0b10010, 0b01101]
    } else if ch == 'R' || ch == 'r' {
        seq![0b11110, 0b10001, 0b10001, 0b11110, 0b10100, 0b10010, 0b10001]
    } else if ch == 'S' || ch == 's' {
        seq![0b01110, 0b10001, 0b10000, 0b01110, 0b00001, 0b10001, 0b01110]
    } else if ch == 'T' || ch == 't' {
        seq![0b11111, 0b00100, 0b00100, 0b00100, 0b00100, 0b00100, 0b00100]
    } else if ch == 'U' || ch == 'u' {
        seq![0b10001, 0b10001, 0b10001, 0b10001, 0b10001, 0b10001, 0b01110]
    } else if ch == 'V' || ch == 'v' {
        seq![0b10001, 0b10001, 0b10001, 0b10001, 0b01010, 0b01010, 0b00100]
    } else if ch == 'W' || ch == 'w' {
        seq![0b10001, 0b10001, 0b10001, 0b10101, 0b10101, 0b11011, 0b10001]
    } else if ch == 'X' || ch == 'x' {
        seq![0b10001, 0b10001, 0b01010, 0b00100, 0b01010, 0b10001, 0b10001]
    } else if ch == 'Y' || ch == 'y' {
        seq![0b10001, 0b10001, 0b01010, 0b00100, 0b00100, 0b00100, 0b00100]
    } else if ch == 'Z' || ch == 'z' {
        seq![0b11111, 0b00001, 0b00010, 0b00100, 0b01000, 0b10000, 0b11111]
    } else if ch == '0' {
        seq![0b01110, 0b10001, 0b10011, 0b10101, 0b11001, 0b10001, 0b01110]
    } else if ch == '1' {
        seq![0b00100, 0b01100, 0b00100, 0b00100, 0b00100, 0b00100, 0b01110]
    } else if ch == '2' {
        seq![0b01110, 0b10001, 0b00001, 0b00110, 0b01000, 0b10000, 0b11111]
    } else if ch == '3' {
        seq![0b01110, 0b10001, 0b00001, 0b00110, 0b00001, 0b10001, 0b01110]
    } else if ch == '4' {
        seq![0b00010, 0b00110, 0b01010, 0b10010, 0b11111, 0b00010, 0b00010]
    } else if ch == '5' {
        seq![0b11111, 0b10000, 0b11110, 0b00001, 0b00001, 0b10001, 0b01110]
    } else if ch == '6' {
        seq![0b01110, 0b10000, 0b10000, 0b11110, 0b10001, 0b10001, 0b01110]
    } else if ch == '7' {
        seq![0b11111, 0b00001, 0b00010, 0b00100, 0b00100, 0b00100, 0b00100]
    } else if ch == '8' {
        seq![0b01110, 0b10001, 0b10001, 0b01110, 0b10001, 0b10001, 0b01110]
    } else if ch == '9' {
        seq![0b01110, 0b10001, 0b10001, 0b01111, 0b00001, 0b00001, 0b01110]
    } else if ch == ' ' {
        seq![0b00000, 0b00000, 0b00000, 0b00000, 0b00000, 0b00000, 0b00000]
    } else if ch == '.' {
        seq![0b00000, 0b00000, 0b00000, 0b00000, 0b00000, 0b00000, 0b00100]
    } else if ch == ',' {
        seq![0b00000, 0b00000, 0b00000, 0b00000, 0b00000, 0b00100, 0b01000]
    } else if ch == '!' {
        seq![0b00100, 0b00100, 0b00100, 0b00100, 0b00100, 0b00000, 0b00100]
    } else if ch == '?' {
        seq![0b01110, 0b10001, 0b00010, 0b00100, 0b00100, 0b00000, 0b00100]
    } else if ch == '-' {
        seq![0b00000, 0b00000, 0b00000, 0b11111, 0b00000, 0b00000, 0b00000]
    } else if ch == ':' {
        seq![0b00000, 0b00100, 0b00000, 0b00000, 0b00000, 0b00100, 0b00000]
    } else if ch == '(' {
        seq![0b00010, 0b00100, 0b01000, 0b01000, 0b01000, 0b00100, 0b00010]
    } else if ch == ')' {
        seq![0b01000, 0b00100, 0b00010, 0b00010, 0b00010, 0b00100, 0b01000]
    } else {
        seq![0b11111, 0b10001, 0b10001, 0b10001, 0b10001, 0b10001, 0b11111]
    }
}

/// The empty box drawn for a character the font lacks.
pub open spec fn missing_glyph() -> Seq<u8> {
    seq![0b11111, 0b10001, 0b10001, 0b10001, 0b10001, 0b10001, 0b11111]
}

/// Case does not matter to the font: every lowercase ASCII letter is drawn
/// with the glyph of its uppercase letter (32 code points below it), and
/// no letter is drawn as the box of a missing character.
pub proof fn lemma_letters_ignore_case(c: char)
    requires
        'a' <= c <= 'z',
    ensures
        glyph_rows(c) == glyph_rows(((c as u32) - 32) as char),
        glyph_rows(c) != missing_glyph(),
        glyph_rows(((c as u32) - 32) as char) != missing_glyph(),
{
}

/// 5x7 bitmap font glyphs for basic ASCII; an empty box for anything else.
pub fn get_glyph(ch: char) -> (r: [u8; 7])
    ensures
        r@ == glyph_rows(ch),
{
    match ch {
        'A' | 'a' => [0b01110, 0b10001, 0b10001, 0b11111, 0b10001, 0b10001, 0b10001],
        'B' | 'b' => [0b11110, 0b10001, 0b10001, 0b11110, 0b10001, 0b10001, 0b11110],
        'C' | 'c' => [0b01110, 0b10001, 0b10000, 0b10000, 0b10000, 0b10001, 0b01110],
        'D' | 'd' => [0b11110, 0b10001, 0b10001, 0b10001, 0b10001, 0b10001, 0b11110],
        'E' | 'e' => [0b11111, 0b10000, 0b10000, 0b11110, 0b10000, 0b10000, 0b11111],
        'F' | 'f' => [0b11111, 0b10000, 0b10000, 0b11110, 0b10000, 0b10000, 0b10000],
        'G' | 'g' => [0b01110, 0b10001, 0b10000, 0b10111, 0b10001, 0b10001, 0b01110],
        'H' | 'h' => [0b10001, 0b10001, 0b10001, 0b11111, 0b10001, 0b10001, 0b10001],
        'I' | 'i' => [0b01110, 0b00100, 0b00100, 0b00100, 0b00100, 0b00100, 0b01110],
        'J' | 'j' => [0b00111, 0b00010, 0b00010, 0b00010, 0b00010, 0b10010, 0b01100],
        'K' | 'k' => [0b10001, 0b10010, 0b10100, 0b11000, 0b10100, 0b10010, 0b10001],
        'L' | 'l' => [0b10000, 0b10000, 0b10000, 0b10000, 0b10000, 0b10000, 0b11111],
        'M' | 'm' => [0b10001, 0b11011, 0b10101, 0b10101, 0b10001, 0b10001, 0b10001],
        'N' | 'n' => [0b10001, 0b11001, 0b10101, 0b10011, 0b10001, 0b10001, 0b10001],
        'O' | 'o' => [0b01110, 0b10001, 0b10001, 0b10001, 0b10001, 0b10001, 0b01110],
        'P' | 'p' => [0b11110, 0b10001, 0b10001, 0b11110, 0b10000, 0b10000, 0b10000],
        'Q' | 'q' => [0b01110, 0b10001, 0b10001, 0b10001, 0b10101, 0b10010, 0b01101],
        'R' | 'r' => [0b11110, 0b10001, 0b10001, 0b11110, 0b10100, 0b10010, 0b10001],
        'S' | 's' => [0b01110, 0b10001, 0b10000, 0b01110, 0b00001, 0b10001, 0b01110],
        'T' | 't' => [0b11111, 0b00100, 0b00100, 0b00100, 0b00100, 0b00100, 0b00100],
        'U' | 'u' => [0b10001, 0b10001, 0b10001, 0b10001, 0b10001, 0b10001, 0b01110],
        'V' | 'v' => [0b10001, 0b10001, 0b10001, 0b10001, 0b01010, 0b01010, 0b00100],
        'W' | 'w' => [0b10001, 0b10001, 0b10001, 0b10101, 0b10101, 0b11011, 0b10001],
        'X' | 'x' => [0b10001, 0b10001, 0b01010, 0b00100, 0b01010, 0b10001, 0b10001],
        'Y' | 'y' => [0b10001, 0b10001, 0b01010, 0b00100, 0b00100, 0b00100, 0b00100],
        'Z' | 'z' => [0b11111, 0b00001, 0b00010, 0b00100, 0b01000, 0b10000, 0b11111],
        '0' => [0b01110, 0b10001, 0b10011, 0b10101, 0b11001, 0b10001, 0b01110],
        '1' => [0b00100, 0b01100, 0b00100, 0b00100, 0b00100, 0b00100, 0b01110],
        '2' => [0b01110, 0b10001, 0b00001, 0b00110, 0b01000, 0b10000, 0b11111],
        '3' => [0b01110, 0b10001, 0b00001, 0b00110, 0b00001, 0b10001, 0b01110],
        '4' => [0b00010, 0b00110, 0b01010, 0b10010, 0b11111, 0b00010, 0b00010],
        '5' => [0b11111, 0b10000, 0b11110, 0b00001, 0b00001, 0b10001, 0b01110],
        '6' => [0b01110, 0b10000, 0b10000, 0b11110, 0b10001, 0b10001, 0b01110],
        '7' => [0b11111, 0b00001, 0b00010, 0b00100, 0b00100, 0b00100, 0b00100],
        '8' => [0b01110, 0b10001, 0b10001, 0b01110, 0b10001, 0b10001, 0b01110],
        '9' => [0b01110, 0b10001, 0b10001, 0b01111, 0b00001, 0b00001, 0b01110],
        ' ' => [0b00000, 0b00000, 0b00000, 0b00000, 0b00000, 0b00000, 0b00000],
        '.' => [0b00000, 0b00000, 0b00000, 0b00000, 0b00000, 0b00000, 0b00100],
        ',' => [0b00000, 0b00000, 0b00000, 0b00000, 0b00000, 0b00100, 0b01000],
        '!' => [0b00100, 0b00100, 0b00100, 0b00100, 0b00100, 0b00000, 0b00100],
        '?' => [0b01110, 0b10001, 0b00010, 0b00100, 0b00100, 0b00000, 0b00100],
        '-' => [0b00000, 0b00000, 0b00000, 0b11111, 0b00000, 0b00000, 0b00000],
        ':' => [0b00000, 0b00100, 0b00000, 0b00000, 0b00000, 0b00100, 0b00000],
        '(' => [0b00010, 0b00100, 0b01000, 0b01000, 0b01000, 0b00100, 0b00010],
        ')' => [0b01000, 0b00100, 0b00010, 0b00010, 0b00010, 0b00100, 0b01000],
        _ => [0b11111, 0b10001, 0b10001, 0b10001, 0b10001, 0b10001, 0b11111],
    }
}

/// The value of column `col` (0 leftmost) in a glyph row.
pub open spec fn bit_weight(col: int) -> int {
    if col == 0 { 16 } else if col == 1 { 8 } else if col == 2 { 4 } else if col == 3 { 2 } else { 1 }
}

/// Whether column `col` of row `row` of the glyph of `ch` is set.
pub open spec fn glyph_bit(ch: char, row: int, col: int) -> bool {
    (glyph_rows(ch)[row] as int / bit_weight(col)) % 2 == 1
}

/// Whether pixel `(px, py)` is covered when `text` is drawn with its
/// top-left corner at `(x, y)`: each font pixel becomes a `scale` x `scale`
/// block, and characters start `6 * scale` pixels apart (five columns and
/// one of spacing).
pub open spec fn text_lit(text: Seq<char>, x: int, y: int, scale: int, px: int, py: int) -> bool {
    let dx = px - x;
    let dy = py - y;
    let cell = 6 * scale;
    &&& scale > 0
    &&& 0 <= dx
    &&& 0 <= dy
    &&& dx / cell < text.len()
    &&& (dx % cell) / scale < 5
    &&& dy / scale < 7
    &&& glyph_bit(text[dx / cell], dy / scale, (dx % cell) / scale)
}

/// Whether byte `i` of a buffer belongs to a covered pixel that lies within
/// the image (`buf_w` x `buf_h`) and wholly inside the buffer.
pub open spec fn text_byte(i: int, len: int, stride: int, buf_w: int, buf_h: int,
    text: Seq<char>, x: int, y: int, scale: int) -> bool
{
    rect_byte(i, len, stride, 0, buf_w, 0, buf_h) && text_lit(text, x, y, scale, i % stride / 4, i / stride)
}

/// The buffer with `color` composited over every covered pixel of `text`.
pub open spec fn text_drawn(data: Seq<u8>, stride: int, buf_w: int, buf_h: int,
    text: Seq<char>, x: int, y: int, scale: int, color: Bgra) -> Seq<u8>
{
    Seq::new(data.len(), |i: int|
        if text_byte(i, data.len() as int, stride, buf_w, buf_h, text, x, y, scale) {
            painted(data[i], i % stride % 4, color)
        } else {
            data[i]
        })
}

/// A covered pixel lies within the box that the text spans.
proof fn lemma_lit_bounds(text: Seq<char>, x: int, y: int, scale: int, px: int, py: int)
    requires
        text_lit(text, x, y, scale, px, py),
    ensures
        x <= px < x + 6 * scale * text.len(),
        y <= py < y + 7 * scale,
{
    let dx = px - x;
    let dy = py - y;
    let cell = 6 * scale;
    let k = dx / cell;
    let n = text.len() as int;
    vstd::arithmetic::div_mod::lemma_fundamental_div_mod(dx, cell);
    vstd::arithmetic::div_mod::lemma_fundamental_div_mod(dy, scale);
    assert(dx < cell * n) by (nonlinear_arith)
        requires dx == cell * k + dx % cell, dx % cell < cell, k < n, 0 <= k, cell > 0;
    assert(dy < 7 * scale) by (nonlinear_arith)
        requires dy == scale * (dy / scale) + dy % scale, dy % scale < scale, dy / scale < 7, scale > 0;
    assert(cell * n == 6 * scale * n) by (nonlinear_arith)
        requires cell == 6 * scale;
}

/// The text's characters, one by one.
fn chars_of(text: &str) -> (r: Vec<char>)
    ensures
        r@ == text@,
{
    let n = text.unicode_len();
    let mut v: Vec<char> = Vec::new();
    let mut i: usize = 0;
    while i < n
        invariant
            n == text@.len(),
            i <= n,
            v@ =~= text@.subrange(0, i as int),
        decreases n - i,
    {
        v.push(text.get_char(i));
        assert(text@.subrange(0, i + 1) =~= text@.subrange(0, i as int).push(text@[i as int]));
        i = i + 1;
    }
    assert(text@.subrange(0, n as int) =~= text@);
    v
}

/// Whether pixel `(px, py)` is covered by the text.
fn is_lit(chars: &Vec<char>, x: i32, y: i32, scale: u32, px: u32, py: u32) -> (r: bool)
    requires
        scale >= 1,
    ensures
        r == text_lit(chars@, x as int, y as int, scale as int, px as int, py as int),
{
    let sdx: i64 = px as i64 - x as i64;
    let sdy: i64 = py as i64 - y as i64;
    if sdx < 0 || sdy < 0 {
        return false;
    }
    let dx = sdx as u64;
    let dy = sdy as u64;
    let cell: u64 = 6 * scale as u64;
    let k = dx / cell;
    if k >= (chars.len() as u64) {
        return false;
    }
    let col = (dx % cell) / scale as u64;
    let row = dy / scale as u64;
    if col >= 5 || row >= 7 {
        return false;
    }
    let glyph = get_glyph(chars[k as usize]);
    let bits = glyph[row as usize];
    let w: u8 = if col == 0 { 16 } else if col == 1 { 8 } else if col == 2 { 4 } else if col == 3 { 2 } else { 1 };
    (bits / w) % 2 == 1
}

/// Draw `text` in the built-in font with its top-left corner at `(x, y)`,
/// each font pixel a `scale` x `scale` block, characters `6 * scale` pixels
/// apart, compositing `color` over the covered pixels that fall inside the
/// `buf_w` x `buf_h` image.
pub fn draw_text(data: &mut Vec<u8>, buf_w: u32, buf_h: u32, stride: u32, x: i32, y: i32,
    text: &str, color: Bgra, scale: u32)
    requires
        scale >= 1,
        4 * buf_w <= stride,
        buf_h * stride <= u32::MAX,
        text@.len() > 0 ==> x + 6 * scale * text@.len() <= i32::MAX && y + 7 * scale <= i32::MAX,
    ensures
        final(data)@ == text_drawn(old(data)@, stride as int, buf_w as int, buf_h as int, text@,
            x as int, y as int, scale as int, color),
{
    let ghost orig = data@;
    let ghost len = orig.len() as int;
    let ghost st = stride as int;
    let ghost t = text@;
    let chars = chars_of(text);
    if chars.len() == 0 {
        assert(data@ =~= text_drawn(orig, st, buf_w as int, buf_h as int, t, x as int, y as int, scale as int, color));
        return;
    }
    let ghost n = t.len() as int;
    proof {
        assert(6 * scale <= 6 * scale * n <= 0x1_0000_0000) by (nonlinear_arith)
            requires n >= 1, scale >= 1, x + 6 * scale * n <= i32::MAX, x >= i32::MIN;
        assert(n <= 6 * scale * n) by (nonlinear_arith)
            requires n >= 1, scale >= 1;
    }
    let span_w: i64 = 6 * (scale as i64) * (chars.len() as i64);
    let left: i64 = if x < 0 { 0 } else { x as i64 };
    let right: i64 = if (x as i64) + span_w < (buf_w as i64) { (x as i64) + span_w } else { buf_w as i64 };
    let top: i64 = if y < 0 { 0 } else { y as i64 };
    let span_h: i64 = 7 * (scale as i64);
    let bottom: i64 = if (y as i64) + span_h < (buf_h as i64) { (y as i64) + span_h } else { buf_h as i64 };
    if right <= left || bottom <= top {
        proof {
            assert forall|i: int| 0 <= i < len implies !text_byte(i, len, st, buf_w as int, buf_h as int, t, x as int, y as int, scale as int) by {
                if text_byte(i, len, st, buf_w as int, buf_h as int, t, x as int, y as int, scale as int) {
                    lemma_lit_bounds(t, x as int, y as int, scale as int, i % st / 4, i / st);
                }
            }
        }
        assert(data@ =~= text_drawn(orig, st, buf_w as int, buf_h as int, t, x as int, y as int, scale as int, color));
        return;
    }
    let x0 = left as u32;
    let x1 = right as u32;
    let y0 = top as u32;
    let y1 = bottom as u32;
    proof {
        assert(span_w == 6 * scale * n) by (nonlinear_arith)
            requires span_w == 6 * (scale as int) * n;
    }
    let mut py = y0;
    while py < y1
        invariant
            y0 <= py <= y1,
            x0 < x1 <= buf_w,
            y1 <= buf_h,
            x0 as int == if x < 0 { 0 } else { x as int },
            x1 as int == if x + 6 * scale * n < buf_w { x + 6 * scale * n } else { buf_w as int },
            y0 as int == if y < 0 { 0 } else { y as int },
            y1 as int == if y + 7 * scale < buf_h { y + 7 * scale } else { buf_h as int },
            scale >= 1,
            4 * buf_w <= stride,
            buf_h * stride <= u32::MAX,
            st == stride,
            t == chars@,
            n == t.len(),
            data@.len() == len,
            forall|i: int| 0 <= i < len ==> #[trigger] data@[i] == (
                if text_byte(i, len, st, buf_w as int, buf_h as int, t, x as int, y as int, scale as int) && i / st < py
                { painted(orig[i], i % st % 4, color) } else { orig[i] }),
        decreases y1 - py,
    {
        let mut px = x0;
        while px < x1
            invariant
                y0 <= py < y1,
                x0 <= px <= x1,
                x0 < x1 <= buf_w,
                y1 <= buf_h,
                x0 as int == if x < 0 { 0 } else { x as int },
                scale >= 1,
                4 * buf_w <= stride,
                buf_h * stride <= u32::MAX,
                st == stride,
                t == chars@,
                data@.len() == len,
                forall|i: int| 0 <= i < len ==> #[trigger] data@[i] == (
                    if text_byte(i, len, st, buf_w as int, buf_h as int, t, x as int, y as int, scale as int)
                        && (i / st < py || (i / st == py && i % st < 4 * px))
                    { painted(orig[i], i % st % 4, color) } else { orig[i] }),
            decreases x1 - px,
        {
            assert(py * stride + px * 4 <= u32::MAX) by (nonlinear_arith)
                requires py < buf_h, buf_h * stride <= u32::MAX, px < buf_w, 4 * buf_w <= stride;
            let lit = is_lit(&chars, x, y, scale, px, py);
            let ghost off = py * stride + px * 4;
            let ghost before = data@;
            if lit {
                blend_pixel(data, stride, px, py, color.b, color.g, color.r, color.a);
                assert(Bgra { b: color.b, g: color.g, r: color.r, a: color.a } == color);
            }
            proof {
                assert forall|i: int| 0 <= i < len implies #[trigger] data@[i] == (
                    if text_byte(i, len, st, buf_w as int, buf_h as int, t, x as int, y as int, scale as int)
                        && (i / st < py || (i / st == py && i % st < 4 * (px + 1)))
                    { painted(orig[i], i % st % 4, color) } else { orig[i] }) by {
                    if off <= i < off + 4 {
                        lemma_pixel_byte(i, st, px as int, py as int, i - off);
                        assert(!(i / st == py && i % st < 4 * px));
                        assert(before[i] == orig[i]);
                        if lit {
                            assert(data@ == blended_at(before, off, color));
                            if off + 3 < len {
                                assert(text_byte(i, len, st, buf_w as int, buf_h as int, t, x as int, y as int, scale as int));
                                assert(data@[i] == painted(orig[i], i - off, color));
                            } else {
                                assert(!rect_byte(i, len, st, 0, buf_w as int, 0, buf_h as int));
                            }
                        } else {
                            assert(!text_byte(i, len, st, buf_w as int, buf_h as int, t, x as int, y as int, scale as int));
                        }
                    } else if stride > 0 && 0 <= i && i / st == py && 4 * px <= i % st < 4 * (px + 1) {
                        let c = i % st % 4;
                        vstd::arithmetic::div_mod::lemma_fundamental_div_mod(i, st);
                        assert(st * (i / st) == py * st) by (nonlinear_arith)
                            requires i / st == py;
                        assert(i % st == 4 * px + c) by {
                            vstd::arithmetic::div_mod::lemma_fundamental_div_mod(i % st, 4);
                        }
                        assert(i == off + c);
                    } else {
                        if lit {
                            assert(data@ == blended_at(before, off, color));
                        }
                        assert(data@[i] == before[i]);
                    }
                }
            }
            px = px + 1;
        }
        proof {
            assert forall|i: int| 0 <= i < len implies
                (text_byte(i, len, st, buf_w as int, buf_h as int, t, x as int, y as int, scale as int)
                    && (i / st < py || (i / st == py && i % st < 4 * x1)))
                == (text_byte(i, len, st, buf_w as int, buf_h as int, t, x as int, y as int, scale as int) && i / st < py + 1) by {
                if text_byte(i, len, st, buf_w as int, buf_h as int, t, x as int, y as int, scale as int) && i / st == py {
                    lemma_lit_bounds(t, x as int, y as int, scale as int, i % st / 4, i / st);
                    vstd::arithmetic::div_mod::lemma_fundamental_div_mod(i % st, 4);
                }
            }
        }
        py = py + 1;
    }
    assert(data@ =~= text_drawn(orig, st, buf_w as int, buf_h as int, t, x as int, y as int, scale as int, color)) by {
        assert forall|i: int| 0 <= i < len implies data@[i]
            == text_drawn(orig, st, buf_w as int, buf_h as int, t, x as int, y as int, scale as int, color)[i] by {
            if text_byte(i, len, st, buf_w as int, buf_h as int, t, x as int, y as int, scale as int) {
                lemma_lit_bounds(t, x as int, y as int, scale as int, i % st / 4, i / st);
            }
        }
    }
}

} // verus!
